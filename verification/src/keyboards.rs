//! The bot's keyboards as plain rows of labels and button data.

use crate::decimal::int_decimal;
use crate::decimal::push_i64_decimal;
use vstd::prelude::*;
use vstd::string::StringExecFns;

verus! {

pub const BTN_USER_LINK: &'static str = "🔗 Моя ссылка";

pub const BTN_USER_GUIDE: &'static str = "❓ Инструкция";

pub const BTN_ADMIN_REQUESTS: &'static str = "📋 Управление заявками";

pub const BTN_ADMIN_TOKENS: &'static str = "🔑 Управление токенами";

pub const BTN_ADMIN_USERS: &'static str = "👥 Список пользователей";

pub const BTN_ADMIN_SERVICE: &'static str = "⚙️ Статус сервиса";

pub const BTN_ADMIN_STATS: &'static str = "📊 Статистика";

pub const BTN_ADMIN_CREATE_HINT: &'static str = "➕ Создать @username";

pub const BTN_ADMIN_HELP: &'static str = "❓ Справка";

pub const BTN_ADMIN_PENDING: &'static str = "📥 Новые заявки";

pub const BTN_ADMIN_TOKEN_CREATE: &'static str = "➕ Создать токен";

pub const BTN_ADMIN_TOKEN_LIST: &'static str = "📋 Список токенов";

pub const BTN_BACK: &'static str = "◀️ Назад";

/// A button under a message: what it shows and what pressing it sends.
#[derive(Debug)]
pub struct InlineButton {
    pub text: String,
    pub data: String,
}

pub ghost struct ButtonView {
    pub text: Seq<char>,
    pub data: Seq<char>,
}

impl View for InlineButton {
    type V = ButtonView;

    open spec fn view(&self) -> ButtonView {
        ButtonView { text: self.text@, data: self.data@ }
    }
}

/// The buttons of one row.
pub open spec fn row_view(row: Vec<InlineButton>) -> Seq<ButtonView> {
    Seq::new(row@.len(), |j: int| row@[j]@)
}

/// The buttons of a keyboard, row by row.
pub open spec fn rows_view(rows: Vec<Vec<InlineButton>>) -> Seq<Seq<ButtonView>> {
    Seq::new(rows@.len(), |i: int| row_view(rows@[i]))
}

/// The labels of a menu, row by row.
pub open spec fn menu_view(rows: Vec<Vec<&'static str>>) -> Seq<Seq<Seq<char>>> {
    Seq::new(rows@.len(), |i: int| Seq::new(rows@[i]@.len(), |j: int| rows@[i]@[j]@))
}

/// A row of one label.
fn menu_row_1(a: &'static str) -> (row: Vec<&'static str>)
    ensures
        row@ == seq![a],
{
    let mut row: Vec<&'static str> = Vec::new();
    row.push(a);
    assert(row@ =~= seq![a]);
    row
}

/// A row of two labels.
fn menu_row_2(a: &'static str, b: &'static str) -> (row: Vec<&'static str>)
    ensures
        row@ == seq![a, b],
{
    let mut row: Vec<&'static str> = Vec::new();
    row.push(a);
    row.push(b);
    assert(row@ =~= seq![a, b]);
    row
}

/// The menu of a user: the link and the guide.
pub fn user_menu() -> (rows: Vec<Vec<&'static str>>)
    ensures
        menu_view(rows) == seq![seq![BTN_USER_LINK@, BTN_USER_GUIDE@]],
{
    let mut rows: Vec<Vec<&'static str>> = Vec::new();
    rows.push(menu_row_2(BTN_USER_LINK, BTN_USER_GUIDE));
    assert(menu_view(rows)[0] =~= seq![BTN_USER_LINK@, BTN_USER_GUIDE@]);
    assert(menu_view(rows) =~= seq![seq![BTN_USER_LINK@, BTN_USER_GUIDE@]]);
    rows
}

/// The menu of an administrator.
pub fn admin_menu() -> (rows: Vec<Vec<&'static str>>)
    ensures
        menu_view(rows) == seq![
            seq![BTN_ADMIN_REQUESTS@, BTN_ADMIN_TOKENS@],
            seq![BTN_ADMIN_USERS@, BTN_ADMIN_SERVICE@],
            seq![BTN_ADMIN_STATS@, BTN_ADMIN_CREATE_HINT@],
            seq![BTN_ADMIN_HELP@],
        ],
{
    let mut rows: Vec<Vec<&'static str>> = Vec::new();
    rows.push(menu_row_2(BTN_ADMIN_REQUESTS, BTN_ADMIN_TOKENS));
    rows.push(menu_row_2(BTN_ADMIN_USERS, BTN_ADMIN_SERVICE));
    rows.push(menu_row_2(BTN_ADMIN_STATS, BTN_ADMIN_CREATE_HINT));
    rows.push(menu_row_1(BTN_ADMIN_HELP));
    assert(menu_view(rows)[0] =~= seq![BTN_ADMIN_REQUESTS@, BTN_ADMIN_TOKENS@]);
    assert(menu_view(rows)[1] =~= seq![BTN_ADMIN_USERS@, BTN_ADMIN_SERVICE@]);
    assert(menu_view(rows)[2] =~= seq![BTN_ADMIN_STATS@, BTN_ADMIN_CREATE_HINT@]);
    assert(menu_view(rows)[3] =~= seq![BTN_ADMIN_HELP@]);
    assert(menu_view(rows) =~= seq![
        seq![BTN_ADMIN_REQUESTS@, BTN_ADMIN_TOKENS@],
        seq![BTN_ADMIN_USERS@, BTN_ADMIN_SERVICE@],
        seq![BTN_ADMIN_STATS@, BTN_ADMIN_CREATE_HINT@],
        seq![BTN_ADMIN_HELP@],
    ]);
    rows
}

/// The menu for requests.
pub fn admin_requests_menu() -> (rows: Vec<Vec<&'static str>>)
    ensures
        menu_view(rows) == seq![seq![BTN_ADMIN_PENDING@], seq![BTN_BACK@]],
{
    let mut rows: Vec<Vec<&'static str>> = Vec::new();
    rows.push(menu_row_1(BTN_ADMIN_PENDING));
    rows.push(menu_row_1(BTN_BACK));
    assert(menu_view(rows)[0] =~= seq![BTN_ADMIN_PENDING@]);
    assert(menu_view(rows)[1] =~= seq![BTN_BACK@]);
    assert(menu_view(rows) =~= seq![seq![BTN_ADMIN_PENDING@], seq![BTN_BACK@]]);
    rows
}

/// The menu for tokens.
pub fn admin_tokens_menu() -> (rows: Vec<Vec<&'static str>>)
    ensures
        menu_view(rows) == seq![
            seq![BTN_ADMIN_TOKEN_CREATE@, BTN_ADMIN_TOKEN_LIST@],
            seq![BTN_BACK@],
        ],
{
    let mut rows: Vec<Vec<&'static str>> = Vec::new();
    rows.push(menu_row_2(BTN_ADMIN_TOKEN_CREATE, BTN_ADMIN_TOKEN_LIST));
    rows.push(menu_row_1(BTN_BACK));
    assert(menu_view(rows)[0] =~= seq![BTN_ADMIN_TOKEN_CREATE@, BTN_ADMIN_TOKEN_LIST@]);
    assert(menu_view(rows)[1] =~= seq![BTN_BACK@]);
    assert(menu_view(rows) =~= seq![
        seq![BTN_ADMIN_TOKEN_CREATE@, BTN_ADMIN_TOKEN_LIST@],
        seq![BTN_BACK@],
    ]);
    rows
}

/// A button with this label and data.
fn button(text: String, data: String) -> (b: InlineButton)
    ensures
        b@ == (ButtonView { text: text@, data: data@ }),
{
    InlineButton { text: text, data: data }
}

/// A text and then a number in decimal.
fn text_and_number(text: &str, n: i64) -> (res: String)
    ensures
        res@ == text@ + int_decimal(n as int),
{
    let mut res = String::from_str(text);
    push_i64_decimal(&mut res, n);
    res
}

/// A text and then another.
fn two_texts(a: &str, b: &str) -> (res: String)
    ensures
        res@ == a@ + b@,
{
    let mut res = String::from_str(a);
    res.append(b);
    res
}

/// A row of one button.
fn row_1(a: InlineButton) -> (row: Vec<InlineButton>)
    ensures
        row_view(row) == seq![a@],
{
    let mut row: Vec<InlineButton> = Vec::new();
    row.push(a);
    assert(row_view(row) =~= seq![a@]);
    row
}

/// A row of two buttons.
fn row_2(a: InlineButton, b: InlineButton) -> (row: Vec<InlineButton>)
    ensures
        row_view(row) == seq![a@, b@],
{
    let mut row: Vec<InlineButton> = Vec::new();
    row.push(a);
    row.push(b);
    assert(row_view(row) =~= seq![a@, b@]);
    row
}

/// A row of three buttons.
fn row_3(a: InlineButton, b: InlineButton, c: InlineButton) -> (row: Vec<InlineButton>)
    ensures
        row_view(row) == seq![a@, b@, c@],
{
    let mut row: Vec<InlineButton> = Vec::new();
    row.push(a);
    row.push(b);
    row.push(c);
    assert(row_view(row) =~= seq![a@, b@, c@]);
    row
}

/// The page before `page`, and the first page where there is none before.
pub open spec fn prev_page(page: i64) -> i64 {
    if page > 1 {
        (page - 1) as i64
    } else {
        1
    }
}

/// The page after `page`, and the last page where there is none after.
pub open spec fn next_page(page: i64, total_pages: i64) -> i64 {
    if page < total_pages {
        (page + 1) as i64
    } else {
        total_pages
    }
}

/// The row of a token: look at it, or revoke it.
pub open spec fn token_row_spec(token: Seq<char>) -> Seq<ButtonView> {
    seq![
        ButtonView { text: "🔑 "@ + token, data: "token:view:"@ + token },
        ButtonView { text: "🚫 Отозвать"@, data: "token:revoke:"@ + token },
    ]
}

/// The row that turns the pages: back, where we are, forward.
pub open spec fn pages_row_spec(page: i64, total_pages: i64) -> Seq<ButtonView> {
    seq![
        ButtonView {
            text: "⬅️"@,
            data: "tokens_page:"@ + int_decimal(prev_page(page) as int),
        },
        ButtonView {
            text: "📄 "@ + int_decimal(page as int) + "/"@ + int_decimal(
                if total_pages > 1 {
                    total_pages as int
                } else {
                    1
                },
            ),
            data: "tokens_page:"@ + int_decimal(page as int),
        },
        ButtonView {
            text: "➡️"@,
            data: "tokens_page:"@ + int_decimal(next_page(page, total_pages) as int),
        },
    ]
}

/// The row that reloads the page.
pub open spec fn refresh_row_spec(page: i64) -> Seq<ButtonView> {
    seq![ButtonView { text: "🔄 Обновить"@, data: "tokens_page:"@ + int_decimal(page as int) }]
}

/// The keyboard under a page of tokens: a row for each token, then the row
/// that turns the pages, then the row that reloads.
pub open spec fn token_list_spec(tokens: Seq<Seq<char>>, page: i64, total_pages: i64) -> Seq<
    Seq<ButtonView>,
> {
    Seq::new(tokens.len(), |i: int| token_row_spec(tokens[i])) + seq![
        pages_row_spec(page, total_pages),
        refresh_row_spec(page),
    ]
}

/// The names in a list of texts.
pub open spec fn texts_view(texts: &[String]) -> Seq<Seq<char>> {
    Seq::new(texts@.len(), |i: int| texts@[i]@)
}

/// The keyboard under a page of tokens.
pub fn token_list_keyboard(tokens: &[String], page: i64, total_pages: i64) -> (rows: Vec<
    Vec<InlineButton>,
>)
    ensures
        rows_view(rows) == token_list_spec(texts_view(tokens), page, total_pages),
{
    let mut rows: Vec<Vec<InlineButton>> = Vec::new();
    let mut i: usize = 0;
    while i < tokens.len()
        invariant
            i <= tokens.len(),
            rows@.len() == i,
            forall|k: int| 0 <= k < i ==> row_view(#[trigger] rows@[k]) == token_row_spec(tokens@[k]@),
        decreases tokens.len() - i,
    {
        let token = tokens[i].as_str();
        let row = row_2(
            button(two_texts("🔑 ", token), two_texts("token:view:", token)),
            button(String::from_str("🚫 Отозвать"), two_texts("token:revoke:", token)),
        );
        rows.push(row);
        i += 1;
    }
    let before = if page > 1 {
        page - 1
    } else {
        1
    };
    let after = if page < total_pages {
        page + 1
    } else {
        total_pages
    };
    let shown_total = if total_pages > 1 {
        total_pages
    } else {
        1
    };
    let mut here = text_and_number("📄 ", page);
    here.append("/");
    push_i64_decimal(&mut here, shown_total);
    let pages = row_3(
        button(String::from_str("⬅️"), text_and_number("tokens_page:", before)),
        button(here, text_and_number("tokens_page:", page)),
        button(String::from_str("➡️"), text_and_number("tokens_page:", after)),
    );
    assert(row_view(pages) =~= pages_row_spec(page, total_pages));
    let refresh = row_1(button(String::from_str("🔄 Обновить"), text_and_number("tokens_page:", page)));
    rows.push(pages);
    rows.push(refresh);
    assert(rows_view(rows) =~= token_list_spec(texts_view(tokens), page, total_pages));
    rows
}

/// The buttons under the service's status: reload, restart.
pub open spec fn service_control_spec() -> Seq<Seq<ButtonView>> {
    seq![
        seq![
            ButtonView { text: "🔄 Обновить"@, data: "service:status"@ },
            ButtonView { text: "♻️ Рестарт"@, data: "service:restart"@ },
        ],
    ]
}

/// The buttons under the service's status.
pub fn service_control_buttons() -> (rows: Vec<Vec<InlineButton>>)
    ensures
        rows_view(rows) == service_control_spec(),
{
    let mut rows: Vec<Vec<InlineButton>> = Vec::new();
    rows.push(
        row_2(
            button(String::from_str("🔄 Обновить"), String::from_str("service:status")),
            button(String::from_str("♻️ Рестарт"), String::from_str("service:restart")),
        ),
    );
    assert(rows_view(rows) =~= service_control_spec());
    rows
}

/// The buttons under a new request: approve, reject. Their data is the
/// prefix of the action and the request's id.
pub open spec fn approve_reject_spec(request_id: i64) -> Seq<Seq<ButtonView>> {
    seq![
        seq![
            ButtonView {
                text: "✅ Одобрить"@,
                data: "approve:"@ + int_decimal(request_id as int),
            },
            ButtonView {
                text: "❌ Отклонить"@,
                data: "reject:"@ + int_decimal(request_id as int),
            },
        ],
    ]
}

/// The buttons under a new request.
pub fn approve_reject_buttons(request_id: i64) -> (rows: Vec<Vec<InlineButton>>)
    ensures
        rows_view(rows) == approve_reject_spec(request_id),
{
    let mut rows: Vec<Vec<InlineButton>> = Vec::new();
    rows.push(
        row_2(
            button(String::from_str("✅ Одобрить"), text_and_number("approve:", request_id)),
            button(String::from_str("❌ Отклонить"), text_and_number("reject:", request_id)),
        ),
    );
    assert(rows_view(rows) =~= approve_reject_spec(request_id));
    rows
}

/// The data of a button that names a user and the page to come back to.
pub open spec fn user_page_data(prefix: Seq<char>, tg_user_id: i64, page: i64) -> Seq<char> {
    prefix + int_decimal(tg_user_id as int) + ":"@ + int_decimal(page as int)
}

/// The buttons under a user's card: the link, the ban, the way back.
pub open spec fn user_card_spec(tg_user_id: i64, page: i64) -> Seq<Seq<ButtonView>> {
    seq![
        seq![
            ButtonView {
                text: "🔗 Данные + QR"@,
                data: user_page_data("user_view:"@, tg_user_id, page),
            },
        ],
        seq![
            ButtonView {
                text: "⛔ Забанить (удалить)"@,
                data: user_page_data("user_ban:"@, tg_user_id, page),
            },
        ],
        seq![
            ButtonView {
                text: "⬅️ Назад к списку"@,
                data: "users_page:"@ + int_decimal(page as int),
            },
        ],
    ]
}

/// A prefix, a user's id and a page.
fn user_and_page(prefix: &str, tg_user_id: i64, page: i64) -> (res: String)
    ensures
        res@ == user_page_data(prefix@, tg_user_id, page),
{
    let mut res = text_and_number(prefix, tg_user_id);
    res.append(":");
    push_i64_decimal(&mut res, page);
    res
}

/// The buttons under a user's card.
pub fn user_card_keyboard(tg_user_id: i64, page: i64) -> (rows: Vec<Vec<InlineButton>>)
    ensures
        rows_view(rows) == user_card_spec(tg_user_id, page),
{
    let mut rows: Vec<Vec<InlineButton>> = Vec::new();
    rows.push(
        row_1(
            button(String::from_str("🔗 Данные + QR"), user_and_page("user_view:", tg_user_id, page)),
        ),
    );
    rows.push(
        row_1(
            button(
                String::from_str("⛔ Забанить (удалить)"),
                user_and_page("user_ban:", tg_user_id, page),
            ),
        ),
    );
    rows.push(
        row_1(button(String::from_str("⬅️ Назад к списку"), text_and_number("users_page:", page))),
    );
    assert(rows_view(rows) =~= user_card_spec(tg_user_id, page));
    rows
}

} // verus!

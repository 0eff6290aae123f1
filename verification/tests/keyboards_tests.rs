use telemt_admin::keyboards::admin_menu;
use telemt_admin::keyboards::admin_requests_menu;
use telemt_admin::keyboards::admin_tokens_menu;
use telemt_admin::keyboards::approve_reject_buttons;
use telemt_admin::keyboards::service_control_buttons;
use telemt_admin::keyboards::token_list_keyboard;
use telemt_admin::keyboards::user_card_keyboard;
use telemt_admin::keyboards::user_menu;
use telemt_admin::keyboards::InlineButton;

fn plain(rows: &Vec<Vec<InlineButton>>) -> Vec<Vec<(String, String)>> {
    rows.iter().map(|row| row.iter().map(|b| (b.text.clone(), b.data.clone())).collect()).collect()
}

fn pair(text: &str, data: &str) -> (String, String) {
    (text.to_string(), data.to_string())
}

#[test]
fn menus_have_their_rows() {
    assert_eq!(user_menu(), vec![vec!["🔗 Моя ссылка", "❓ Инструкция"]]);
    assert_eq!(
        admin_menu(),
        vec![
            vec!["📋 Управление заявками", "🔑 Управление токенами"],
            vec!["👥 Список пользователей", "⚙️ Статус сервиса"],
            vec!["📊 Статистика", "➕ Создать @username"],
            vec!["❓ Справка"],
        ]
    );
    assert_eq!(admin_requests_menu(), vec![vec!["📥 Новые заявки"], vec!["◀️ Назад"]]);
    assert_eq!(
        admin_tokens_menu(),
        vec![vec!["➕ Создать токен", "📋 Список токенов"], vec!["◀️ Назад"]]
    );
}

#[test]
fn token_list_has_a_row_per_token_and_two_more() {
    let tokens = vec!["aaa".to_string(), "bbb".to_string()];
    let rows = token_list_keyboard(&tokens, 2, 5);
    assert_eq!(
        plain(&rows),
        vec![
            vec![pair("🔑 aaa", "token:view:aaa"), pair("🚫 Отозвать", "token:revoke:aaa")],
            vec![pair("🔑 bbb", "token:view:bbb"), pair("🚫 Отозвать", "token:revoke:bbb")],
            vec![
                pair("⬅️", "tokens_page:1"),
                pair("📄 2/5", "tokens_page:2"),
                pair("➡️", "tokens_page:3"),
            ],
            vec![pair("🔄 Обновить", "tokens_page:2")],
        ]
    );
}

#[test]
fn token_list_pages_stop_at_the_ends() {
    let none: Vec<String> = Vec::new();
    let rows = token_list_keyboard(&none, 1, 1);
    assert_eq!(
        plain(&rows)[0],
        vec![pair("⬅️", "tokens_page:1"), pair("📄 1/1", "tokens_page:1"), pair("➡️", "tokens_page:1")]
    );
    let rows = token_list_keyboard(&none, 5, 5);
    assert_eq!(
        plain(&rows)[0],
        vec![pair("⬅️", "tokens_page:4"), pair("📄 5/5", "tokens_page:5"), pair("➡️", "tokens_page:5")]
    );
    let rows = token_list_keyboard(&none, 1, 0);
    assert_eq!(
        plain(&rows)[0],
        vec![pair("⬅️", "tokens_page:1"), pair("📄 1/1", "tokens_page:1"), pair("➡️", "tokens_page:0")]
    );
    let rows = token_list_keyboard(&none, i64::MAX, i64::MAX);
    assert_eq!(plain(&rows)[0][2], pair("➡️", "tokens_page:9223372036854775807"));
    let rows = token_list_keyboard(&none, i64::MIN, 3);
    assert_eq!(plain(&rows)[0][0], pair("⬅️", "tokens_page:1"));
    assert_eq!(plain(&rows)[0][2], pair("➡️", "tokens_page:-9223372036854775807"));
}

#[test]
fn service_buttons() {
    assert_eq!(
        plain(&service_control_buttons()),
        vec![vec![pair("🔄 Обновить", "service:status"), pair("♻️ Рестарт", "service:restart")]]
    );
}

#[test]
fn request_buttons() {
    assert_eq!(
        plain(&approve_reject_buttons(17)),
        vec![vec![pair("✅ Одобрить", "approve:17"), pair("❌ Отклонить", "reject:17")]]
    );
}

#[test]
fn user_card_buttons() {
    assert_eq!(
        plain(&user_card_keyboard(111, 3)),
        vec![
            vec![pair("🔗 Данные + QR", "user_view:111:3")],
            vec![pair("⛔ Забанить (удалить)", "user_ban:111:3")],
            vec![pair("⬅️ Назад к списку", "users_page:3")],
        ]
    );
}

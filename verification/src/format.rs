//! The texts that the bot shows: users, tokens, dates.

use crate::db::InviteToken;
use crate::db::RegistrationRequest;
use crate::db::RequestView;
use crate::db::status_label;
use crate::db::TokenView;
use crate::decimal::int_decimal;
use crate::decimal::push_i64_decimal;
use vstd::prelude::*;
use vstd::string::StringExecFns;

verus! {

/// What stands where there is nothing to show.
pub open spec fn dash() -> Seq<char> {
    "‚Äî"@
}

/// How a token's mode is shown.
pub open spec fn format_mode_spec(auto_approve: bool) -> Seq<char> {
    if auto_approve {
        "–ê–í–¢–û–ü–û–î–¢–í–ï–†–ñ–î–ï–ù–ò–ï üöÄ"@
    } else {
        "–†—É—á–Ω–æ–π ‚úÖ"@
    }
}

/// How a token's mode is shown.
pub fn format_mode(auto_approve: bool) -> (res: &'static str)
    ensures
        res@ == format_mode_spec(auto_approve),
{
    if auto_approve {
        "–ê–í–¢–û–ü–û–î–¢–í–ï–†–ñ–î–ï–ù–ò–ï üöÄ"
    } else {
        "–†—É—á–Ω–æ–π ‚úÖ"
    }
}

/// Whether `chrono` has a UTC date and time for this many seconds since
/// 1970.
pub uninterp spec fn utc_has_timestamp(secs: i64) -> bool;

/// How a day is written: day, month, year.
pub const DATE_PATTERN: &'static str = "%d.%m.%Y";

/// How a moment is written: date, time, offset from UTC.
pub const TIMESTAMP_PATTERN: &'static str = "%Y-%m-%d %H:%M:%S %:z";

/// Calls `DateTime::<Utc>::from_timestamp`, `with_timezone(&Local)` and
/// `format`. There is a text exactly where `from_timestamp` has a date;
/// what the text says depends on the machine's time zone and is left open.
/// `format` panics on a pattern it cannot read, so only the two patterns of
/// this library are let in.
#[verifier::external_body]
fn local_time_text(ts: i64, pattern: &str) -> (res: Option<String>)
    requires
        pattern@ == DATE_PATTERN@ || pattern@ == TIMESTAMP_PATTERN@,
    ensures
        res is Some <==> utc_has_timestamp(ts),
{
    chrono::DateTime::<chrono::Utc>::from_timestamp(ts, 0).map(
        |dt| dt.with_timezone(&chrono::Local).format(pattern).to_string(),
    )
}

/// What is shown for a time that is no date.
pub open spec fn invalid_timestamp_text(ts: i64) -> Seq<char> {
    "–ù–µ–∫–æ—Ä—Ä–µ–∫—Ç–Ω—ã–π timestamp: "@ + int_decimal(ts as int)
}

/// The date of `date_text`, or a dash where there is none.
pub fn date_or_dash(date_text: Option<String>) -> (res: String)
    ensures
        res@ == match date_text {
            Some(text) => text@,
            None => dash(),
        },
{
    match date_text {
        Some(text) => text,
        None => String::from_str("‚Äî"),
    }
}

/// The date and time of `timestamp_text`, or the notice that `ts` is no
/// date.
pub fn timestamp_or_notice(timestamp_text: Option<String>, ts: i64) -> (res: String)
    ensures
        res@ == match timestamp_text {
            Some(text) => text@,
            None => invalid_timestamp_text(ts),
        },
{
    match timestamp_text {
        Some(text) => text,
        None => {
            let mut notice = String::from_str("–ù–µ–∫–æ—Ä—Ä–µ–∫—Ç–Ω—ã–π timestamp: ");
            push_i64_decimal(&mut notice, ts);
            notice
        },
    }
}

/// The local date of `ts` as day, month and year, or a dash where `ts` is
/// no date.
pub fn format_date(ts: i64) -> (res: String)
    ensures
        !utc_has_timestamp(ts) ==> res@ == dash(),
{
    date_or_dash(local_time_text(ts, DATE_PATTERN))
}

/// The local date and time of `ts` with the offset from UTC, or a notice
/// where `ts` is no date.
pub fn format_timestamp(ts: i64) -> (res: String)
    ensures
        !utc_has_timestamp(ts) ==> res@ == invalid_timestamp_text(ts),
{
    timestamp_or_notice(local_time_text(ts, TIMESTAMP_PATTERN), ts)
}

/// The name a user is shown under: the display name, else the handle with
/// `@`, else the proxy username, else `tg_` and the user's id.
pub open spec fn user_display_name_spec(user: RequestView) -> Seq<char> {
    match user.tg_display_name {
        Some(name) => name,
        None => match user.tg_username {
            Some(handle) => "@"@ + handle,
            None => match user.telemt_username {
                Some(name) => name,
                None => "tg_"@ + int_decimal(user.tg_user_id as int),
            },
        },
    }
}

/// The name a user is shown under.
pub fn user_display_name(user: &RegistrationRequest) -> (res: String)
    ensures
        res@ == user_display_name_spec(user@),
{
    match &user.tg_display_name {
        Some(name) => name.clone(),
        None => match &user.tg_username {
            Some(handle) => {
                let mut shown = String::from_str("@");
                shown.append(handle.as_str());
                shown
            },
            None => match &user.telemt_username {
                Some(name) => name.clone(),
                None => {
                    let mut shown = String::from_str("tg_");
                    push_i64_decimal(&mut shown, user.tg_user_id);
                    shown
                },
            },
        },
    }
}

/// How often a token was used, against its limit.
pub open spec fn token_usage_spec(token: TokenView) -> Seq<char> {
    match token.max_usage {
        Some(max) => int_decimal(token.usage_count as int) + "/"@ + int_decimal(max as int),
        None => int_decimal(token.usage_count as int) + "/‚àû"@,
    }
}

/// One line about a token, with its two dates as given.
pub open spec fn invite_token_line_spec(
    token: TokenView,
    expires: Seq<char>,
    created: Seq<char>,
) -> Seq<char> {
    "‚Ä¢ "@ + token.token + " | "@ + (if token.auto_approve {
        "AUTO"@
    } else {
        "MANUAL"@
    }) + " | –¥–æ "@ + expires + " | usage "@ + token_usage_spec(token) + " | creator "@ + (match token.created_by {
        Some(id) => int_decimal(id as int),
        None => dash(),
    }) + " | —Å–æ–∑–¥–∞–Ω "@ + created
}

/// One line about a token: name, mode, expiry, usage, creator and creation,
/// with the two dates as given.
pub fn invite_token_line(token: &InviteToken, expires: &str, created: &str) -> (res: String)
    ensures
        res@ == invite_token_line_spec(token@, expires@, created@),
{
    let mode = if token.auto_approve {
        "AUTO"
    } else {
        "MANUAL"
    };
    let mut usage = String::new();
    push_i64_decimal(&mut usage, token.usage_count);
    match token.max_usage {
        Some(max) => {
            usage.append("/");
            push_i64_decimal(&mut usage, max);
        },
        None => {
            usage.append("/‚àû");
        },
    }
    assert(usage@ =~= token_usage_spec(token@));
    let mut line = String::from_str("‚Ä¢ ");
    line.append(token.token.as_str());
    line.append(" | ");
    line.append(mode);
    line.append(" | –¥–æ ");
    line.append(expires);
    line.append(" | usage ");
    line.append(usage.as_str());
    line.append(" | creator ");
    match token.created_by {
        Some(id) => {
            push_i64_decimal(&mut line, id);
        },
        None => {
            line.append("‚Äî");
        },
    }
    line.append(" | —Å–æ–∑–¥–∞–Ω ");
    line.append(created);
    assert(line@ =~= invite_token_line_spec(token@, expires@, created@));
    line
}

/// One line about a token, with its dates in local time. A date that
/// `chrono` does not have is shown as a dash.
pub fn render_invite_token_line(token: &InviteToken) -> (res: String)
    ensures
        exists|expires: Seq<char>, created: Seq<char>|
            {
                &&& res@ == invite_token_line_spec(token@, expires, created)
                &&& !utc_has_timestamp(token.expires_at) ==> expires == dash()
                &&& !utc_has_timestamp(token.created_at) ==> created == dash()
            },
{
    let expires = format_date(token.expires_at);
    let created = format_date(token.created_at);
    invite_token_line(token, expires.as_str(), created.as_str())
}

/// A user's card, with the time of the request as given.
pub open spec fn user_card_spec(user: RequestView, created: Seq<char>) -> Seq<char> {
    "üë§ "@ + user_display_name_spec(user) + "\n\nüÜî "@ + int_decimal(user.tg_user_id as int) + "\nüì± "@ + (
    match user.tg_username {
        Some(handle) => "@"@ + handle,
        None => dash(),
    }) + "\nüìã "@ + status_label(user.status) + "\nüîó "@ + (match user.telemt_username {
        Some(name) => name,
        None => dash(),
    }) + "\nüìÖ "@ + created
}

/// A user's card: name, id, handle, status, proxy username and the time of
/// the request as given.
pub fn user_card_text(user: &RegistrationRequest, created: &str) -> (res: String)
    ensures
        res@ == user_card_spec(user@, created@),
{
    let shown = user_display_name(user);
    let mut card = String::from_str("üë§ ");
    card.append(shown.as_str());
    card.append("\n\nüÜî ");
    push_i64_decimal(&mut card, user.tg_user_id);
    card.append("\nüì± ");
    match &user.tg_username {
        Some(handle) => {
            card.append("@");
            card.append(handle.as_str());
        },
        None => {
            card.append("‚Äî");
        },
    }
    card.append("\nüìã ");
    card.append(user.status.label());
    card.append("\nüîó ");
    match &user.telemt_username {
        Some(name) => {
            card.append(name.as_str());
        },
        None => {
            card.append("‚Äî");
        },
    }
    card.append("\nüìÖ ");
    card.append(created);
    assert(card@ =~= user_card_spec(user@, created@));
    card
}

/// A user's card, with the time of the request in local time. A time that
/// `chrono` does not have is shown as a notice with the number.
pub fn render_user_card_text(user: &RegistrationRequest) -> (res: String)
    ensures
        exists|created: Seq<char>|
            {
                &&& res@ == user_card_spec(user@, created)
                &&& !utc_has_timestamp(user.created_at) ==> created == invalid_timestamp_text(
                    user.created_at,
                )
            },
{
    let created = format_timestamp(user.created_at);
    user_card_text(user, created.as_str())
}

/// A user and the user's link, to be passed on.
pub open spec fn user_proxy_for_forward_spec(user: RequestView, link: Seq<char>) -> Seq<char> {
    "üë§ "@ + user_display_name_spec(user) + " ("@ + int_decimal(user.tg_user_id as int) + ")\n\nüîó "@ + link
}

/// A user and the user's link, to be passed on.
pub fn render_user_proxy_for_forward(user: &RegistrationRequest, link: &str) -> (res: String)
    ensures
        res@ == user_proxy_for_forward_spec(user@, link@),
{
    let shown = user_display_name(user);
    let mut text = String::from_str("üë§ ");
    text.append(shown.as_str());
    text.append(" (");
    push_i64_decimal(&mut text, user.tg_user_id);
    text.append(")\n\nüîó ");
    text.append(link);
    assert(text@ =~= user_proxy_for_forward_spec(user@, link@));
    text
}

/// How to connect, for a user.
pub open spec fn usage_guide_spec() -> Seq<char> {
    r#"–ö–∞–∫ –ø–æ–¥–∫–ª—é—á–∏—Ç—å—Å—è –∫ –ø—Ä–æ–∫—Å–∏:

1) –ù–∞–∂–º–∏—Ç–µ ¬´üîó –ú–æ—è —Å—Å—ã–ª–∫–∞¬ª ‚Äî –±–æ—Ç –æ—Ç–ø—Ä–∞–≤–∏—Ç –≤–∞–º —Å—Å—ã–ª–∫—É.
2) –ù–∞–∂–º–∏—Ç–µ –Ω–∞ —Å—Å—ã–ª–∫—É ‚Äî Telegram –∞–≤—Ç–æ–º–∞—Ç–∏—á–µ—Å–∫–∏ –ø—Ä–µ–¥–ª–æ–∂–∏—Ç –¥–æ–±–∞–≤–∏—Ç—å –ø—Ä–æ–∫—Å–∏.
3) –ü–æ–¥—Ç–≤–µ—Ä–¥–∏—Ç–µ –¥–æ–±–∞–≤–ª–µ–Ω–∏–µ.

–ï—Å–ª–∏ –Ω–µ –ø–æ–ª—É—á–∞–µ—Ç—Å—è, –æ–±—Ä–∞—Ç–∏—Ç–µ—Å—å –∫ –∞–¥–º–∏–Ω–∏—Å—Ç—Ä–∞—Ç–æ—Ä—É."#@
}

/// How to connect, for a user.
pub fn usage_guide_text() -> (res: &'static str)
    ensures
        res@ == usage_guide_spec(),
{
    r#"–ö–∞–∫ –ø–æ–¥–∫–ª—é—á–∏—Ç—å—Å—è –∫ –ø—Ä–æ–∫—Å–∏:

1) –ù–∞–∂–º–∏—Ç–µ ¬´üîó –ú–æ—è —Å—Å—ã–ª–∫–∞¬ª ‚Äî –±–æ—Ç –æ—Ç–ø—Ä–∞–≤–∏—Ç –≤–∞–º —Å—Å—ã–ª–∫—É.
2) –ù–∞–∂–º–∏—Ç–µ –Ω–∞ —Å—Å—ã–ª–∫—É ‚Äî Telegram –∞–≤—Ç–æ–º–∞—Ç–∏—á–µ—Å–∫–∏ –ø—Ä–µ–¥–ª–æ–∂–∏—Ç –¥–æ–±–∞–≤–∏—Ç—å –ø—Ä–æ–∫—Å–∏.
3) –ü–æ–¥—Ç–≤–µ—Ä–¥–∏—Ç–µ –¥–æ–±–∞–≤–ª–µ–Ω–∏–µ.

–ï—Å–ª–∏ –Ω–µ –ø–æ–ª—É—á–∞–µ—Ç—Å—è, –æ–±—Ä–∞—Ç–∏—Ç–µ—Å—å –∫ –∞–¥–º–∏–Ω–∏—Å—Ç—Ä–∞—Ç–æ—Ä—É."#
}

/// Calls `Debug` of `std::time::SystemTime` on the time `ts` seconds after
/// the epoch. How the platform writes a time is left open. The sum of
/// epoch and seconds overflows for a negative `ts`, which is left out.
#[verifier::external_body]
fn system_time_text(ts: i64) -> (res: String)
    requires
        ts >= 0,
{
    format!("{:?}", std::time::UNIX_EPOCH + std::time::Duration::from_secs(ts as u64))
}

/// The notice that tells an administrator of a new request, with the time
/// of the request as given.
pub open spec fn request_notice_spec(request: RequestView, time: Seq<char>) -> Seq<char> {
    "📋 Новая заявка #"@ + int_decimal(request.id as int) + ":\nUser ID: "@ + int_decimal(
        request.tg_user_id as int,
    ) + "\nUsername: @"@ + (match request.tg_username {
        Some(handle) => handle,
        None => "—"@,
    }) + "\nВремя: "@ + time
}

/// The notice that tells an administrator of a new request: its id, the
/// user's id and handle, and the time of the request as given.
pub fn request_notice_text(request: &RegistrationRequest, time: &str) -> (res: String)
    ensures
        res@ == request_notice_spec(request@, time@),
{
    let mut text = String::from_str("📋 Новая заявка #");
    push_i64_decimal(&mut text, request.id);
    text.append(":\nUser ID: ");
    push_i64_decimal(&mut text, request.tg_user_id);
    text.append("\nUsername: @");
    match &request.tg_username {
        Some(handle) => {
            text.append(handle.as_str());
        },
        None => {
            text.append("—");
        },
    }
    text.append("\nВремя: ");
    text.append(time);
    assert(text@ =~= request_notice_spec(request@, time@));
    text
}

/// The notice that tells an administrator of a new request, with the time
/// of the request as the platform writes it.
pub fn new_request_notice(request: &RegistrationRequest) -> (res: String)
    requires
        request.created_at >= 0,
    ensures
        exists|time: Seq<char>| res@ == request_notice_spec(request@, time),
{
    let time = system_time_text(request.created_at);
    request_notice_text(request, time.as_str())
}

} // verus!

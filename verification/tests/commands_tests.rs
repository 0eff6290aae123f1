use telemt_admin::commands::command_argument;
use telemt_admin::commands::is_whitespace;
use telemt_admin::commands::parse_callback_request_id;
use telemt_admin::commands::parse_service_command;
use telemt_admin::commands::starts_with;
use telemt_admin::commands::CallbackError;
use telemt_admin::commands::ServiceAction;
use telemt_admin::commands::APPROVE_PREFIX;
use telemt_admin::commands::REJECT_PREFIX;
use telemt_admin::keyboards::approve_reject_buttons;

#[test]
fn callback_data_gives_the_request_id() {
    assert_eq!(parse_callback_request_id("approve:17", "approve:"), Ok(17));
    assert_eq!(parse_callback_request_id("reject:1", "reject:"), Ok(1));
    assert_eq!(parse_callback_request_id("approve:-3", "approve:"), Ok(-3));
    assert_eq!(parse_callback_request_id("approve:+3", "approve:"), Ok(3));
    assert_eq!(parse_callback_request_id("5", ""), Ok(5));
}

#[test]
fn callback_data_without_the_prefix_is_a_bad_payload() {
    assert_eq!(parse_callback_request_id("reject:17", "approve:"), Err(CallbackError::BadPayload));
    assert_eq!(parse_callback_request_id("", "approve:"), Err(CallbackError::BadPayload));
    assert_eq!(parse_callback_request_id("approve", "approve:"), Err(CallbackError::BadPayload));
    assert_eq!(parse_callback_request_id("xapprove:1", "approve:"), Err(CallbackError::BadPayload));
    assert_eq!(CallbackError::BadPayload.message(), "Некорректный callback payload");
}

#[test]
fn callback_data_without_a_number_is_a_bad_request_id() {
    assert_eq!(parse_callback_request_id("approve:", "approve:"), Err(CallbackError::BadRequestId));
    assert_eq!(parse_callback_request_id("approve:x", "approve:"), Err(CallbackError::BadRequestId));
    assert_eq!(parse_callback_request_id("approve: 1", "approve:"), Err(CallbackError::BadRequestId));
    assert_eq!(
        parse_callback_request_id("approve:9223372036854775808", "approve:"),
        Err(CallbackError::BadRequestId)
    );
    assert_eq!(CallbackError::BadRequestId.message(), "Некорректный request_id");
}

#[test]
fn buttons_of_a_request_are_read_back() {
    for id in [1i64, 42, i64::MAX, -7] {
        let rows = approve_reject_buttons(id);
        assert_eq!(parse_callback_request_id(&rows[0][0].data, APPROVE_PREFIX), Ok(id));
        assert_eq!(parse_callback_request_id(&rows[0][1].data, REJECT_PREFIX), Ok(id));
        assert!(starts_with(&rows[0][0].data, APPROVE_PREFIX));
        assert!(!starts_with(&rows[0][0].data, REJECT_PREFIX));
    }
}

#[test]
fn starts_with_agrees_with_std() {
    for (s, p) in [("approve:1", "approve:"), ("", ""), ("a", ""), ("", "a"), ("ab", "abc"), ("привет", "при"), ("привет", "пре")] {
        assert_eq!(starts_with(s, p), s.starts_with(p), "{:?} {:?}", s, p);
    }
}

#[test]
fn command_argument_is_the_second_word() {
    assert_eq!(command_argument("/approve 5"), Some(5));
    assert_eq!(command_argument("  /approve   5  "), Some(5));
    assert_eq!(command_argument("/approve\t-12\nrest"), Some(-12));
    assert_eq!(command_argument("/create 123456789 trailing words"), Some(123456789));
    assert_eq!(command_argument("/delete\u{a0}7"), Some(7));
    assert_eq!(command_argument("/delete\u{3000}7"), Some(7));
}

#[test]
fn command_without_a_number_has_no_argument() {
    assert_eq!(command_argument(""), None);
    assert_eq!(command_argument("   "), None);
    assert_eq!(command_argument("/approve"), None);
    assert_eq!(command_argument("/approve "), None);
    assert_eq!(command_argument("/approve five"), None);
    assert_eq!(command_argument("/approve 5x"), None);
    assert_eq!(command_argument("/approve x 5"), None);
    assert_eq!(command_argument("/approve 99999999999999999999"), None);
    assert_eq!(command_argument("/approve\u{200b}5"), None);
}

#[test]
fn command_argument_agrees_with_std() {
    for text in ["/a 1", "/a  2 3", "/a", "", " /a\t+4", "/a -", "/a\r\n5", "/a\u{85}6", "/a\u{2028}7x"] {
        let expected = text.split_whitespace().nth(1).unwrap_or("").parse::<i64>().ok();
        assert_eq!(command_argument(text), expected, "{:?}", text);
    }
}

#[test]
fn whitespace_agrees_with_std() {
    for n in 0u32..0x3100 {
        if let Some(c) = char::from_u32(n) {
            assert_eq!(is_whitespace(c), c.is_whitespace(), "U+{:04X}", n);
        }
    }
    assert!(!is_whitespace('\u{feff}'));
    assert!(!is_whitespace('\u{10ffff}'));
}

#[test]
fn service_command_names_an_action() {
    assert_eq!(parse_service_command("/service start"), Some(ServiceAction::Start));
    assert_eq!(parse_service_command("/service stop"), Some(ServiceAction::Stop));
    assert_eq!(parse_service_command("/service restart now"), Some(ServiceAction::Restart));
    assert_eq!(parse_service_command("/service status"), Some(ServiceAction::Status));
    assert_eq!(parse_service_command("/service"), Some(ServiceAction::Status));
    assert_eq!(parse_service_command(""), Some(ServiceAction::Status));
    assert_eq!(parse_service_command("/service reload"), None);
    assert_eq!(parse_service_command("/service Start"), None);
    assert_eq!(parse_service_command("/service starts"), None);
    assert_eq!(parse_service_command("/service star"), None);
}

#[test]
fn service_actions_have_names() {
    assert_eq!(ServiceAction::Start.name(), "start");
    assert_eq!(ServiceAction::Stop.name(), "stop");
    assert_eq!(ServiceAction::Restart.name(), "restart");
    assert_eq!(ServiceAction::Status.name(), "status");
}

use telemt_admin::db::Db;
use telemt_admin::db::InviteToken;
use telemt_admin::db::RegistrationRequest;
use telemt_admin::db::RegisterResult;
use telemt_admin::db::RequestStatus;
use telemt_admin::db::TokenError;

#[test]
fn new_store_is_empty() {
    let db = Db::new();
    assert_eq!(db.request_count(), 0);
    assert!(db.get_request(1).is_none());
    assert!(db.get_pending_by_id(1).is_none());
    assert!(db.get_approved(111).is_none());
    assert!(db.get_invite_token("t").is_none());
}

#[test]
fn registration_opens_one_request_per_user() {
    let mut db = Db::new();
    match db.register_or_get(111, Some("alice"), 1000) {
        RegisterResult::NewPending(request) => {
            assert_eq!(request.id, 1);
            assert_eq!(request.tg_user_id, 111);
            assert_eq!(request.tg_username.as_deref(), Some("alice"));
            assert_eq!(request.tg_display_name, None);
            assert_eq!(request.status, RequestStatus::Pending);
            assert_eq!(request.telemt_username, None);
            assert_eq!(request.secret, None);
            assert_eq!(request.created_at, 1000);
            assert_eq!(request.decided_at, None);
            assert!(request.active);
        }
        other => panic!("unexpected {:?}", other),
    }
    assert!(matches!(db.register_or_get(111, Some("alice"), 1001), RegisterResult::AlreadyPending));
    assert_eq!(db.request_count(), 1);
    match db.register_or_get(222, None, 1002) {
        RegisterResult::NewPending(request) => {
            assert_eq!(request.id, 2);
            assert_eq!(request.tg_username, None);
        }
        other => panic!("unexpected {:?}", other),
    }
    assert_eq!(db.request_count(), 2);
}

#[test]
fn approve_records_username_and_secret_once() {
    let mut db = Db::new();
    db.register_or_get(111, Some("alice"), 1000);
    let approved = db.approve(1, "tg_111", "00112233445566778899aabbccddeeff", 2000).unwrap();
    assert_eq!(approved.id, 1);
    assert_eq!(approved.status, RequestStatus::Approved);
    assert_eq!(approved.telemt_username.as_deref(), Some("tg_111"));
    assert_eq!(approved.secret.as_deref(), Some("00112233445566778899aabbccddeeff"));
    assert_eq!(approved.decided_at, Some(2000));
    assert_eq!(approved.created_at, 1000);
    assert!(db.approve(1, "tg_111", "ffffffffffffffffffffffffffffffff", 3000).is_none());
    let row = db.get_request(1).unwrap();
    assert_eq!(row.secret.as_deref(), Some("00112233445566778899aabbccddeeff"));
    assert_eq!(row.decided_at, Some(2000));
    assert!(db.get_pending_by_id(1).is_none());
    assert_eq!(
        db.get_approved(111),
        Some(("tg_111".to_string(), "00112233445566778899aabbccddeeff".to_string()))
    );
    match db.register_or_get(111, Some("alice"), 4000) {
        RegisterResult::Approved(secret) => assert_eq!(secret, "00112233445566778899aabbccddeeff"),
        other => panic!("unexpected {:?}", other),
    }
    assert_eq!(db.request_count(), 1);
}

#[test]
fn approve_of_an_unknown_request_gives_nothing() {
    let mut db = Db::new();
    db.register_or_get(111, None, 1);
    assert!(db.approve(0, "tg_111", "s", 2).is_none());
    assert!(db.approve(2, "tg_111", "s", 2).is_none());
    assert!(db.approve(-1, "tg_111", "s", 2).is_none());
    assert!(db.approve(i64::MAX, "tg_111", "s", 2).is_none());
    assert!(db.approve(i64::MIN, "tg_111", "s", 2).is_none());
    assert!(db.get_pending_by_id(1).is_some());
}

#[test]
fn reject_on_an_approved_request_gives_nothing() {
    let mut db = Db::new();
    db.register_or_get(111, Some("alice"), 1000);
    assert!(db.approve(1, "tg_111", "00112233445566778899aabbccddeeff", 2000).is_some());
    assert!(db.reject(1, 3000).is_none());
    let row = db.get_request(1).unwrap();
    assert_eq!(row.status, RequestStatus::Approved);
    assert_eq!(row.secret.as_deref(), Some("00112233445566778899aabbccddeeff"));
    assert_eq!(row.decided_at, Some(2000));
}

#[test]
fn reject_closes_a_pending_request_once() {
    let mut db = Db::new();
    db.register_or_get(111, Some("alice"), 1000);
    let rejected = db.reject(1, 2000).unwrap();
    assert_eq!(rejected.status, RequestStatus::Rejected);
    assert_eq!(rejected.decided_at, Some(2000));
    assert_eq!(rejected.secret, None);
    assert!(db.reject(1, 3000).is_none());
    assert!(db.approve(1, "tg_111", "s", 3000).is_none());
    assert_eq!(db.get_request(1).unwrap().status, RequestStatus::Rejected);
    assert!(db.get_approved(111).is_none());
}

#[test]
fn rejected_user_cannot_register_again() {
    let mut db = Db::new();
    db.register_or_get(111, Some("alice"), 1000);
    db.reject(1, 2000);
    assert!(matches!(db.register_or_get(111, Some("alice"), 3000), RegisterResult::Rejected));
    assert_eq!(db.request_count(), 1);
}

#[test]
fn set_approved_overrides_a_rejection() {
    let mut db = Db::new();
    db.register_or_get(111, Some("alice"), 1000);
    db.reject(1, 2000);
    let row = db.set_approved(111, "tg_111", "abcd", 3000);
    assert_eq!(row.id, 1);
    assert_eq!(row.status, RequestStatus::Approved);
    assert_eq!(row.secret.as_deref(), Some("abcd"));
    assert_eq!(row.tg_username.as_deref(), Some("alice"));
    assert_eq!(row.decided_at, Some(3000));
    assert_eq!(db.request_count(), 1);
    assert_eq!(db.get_approved(111), Some(("tg_111".to_string(), "abcd".to_string())));
}

#[test]
fn set_approved_creates_a_row_for_an_unknown_user() {
    let mut db = Db::new();
    let row = db.set_approved(333, "tg_333", "abcd", 3000);
    assert_eq!(row.id, 1);
    assert_eq!(row.tg_user_id, 333);
    assert_eq!(row.status, RequestStatus::Approved);
    assert_eq!(row.created_at, 3000);
    assert_eq!(row.decided_at, Some(3000));
    assert!(row.active);
    assert_eq!(db.request_count(), 1);
    let again = db.set_approved(333, "tg_333", "efgh", 4000);
    assert_eq!(again.id, 1);
    assert_eq!(again.secret.as_deref(), Some("efgh"));
    assert_eq!(db.request_count(), 1);
}

#[test]
fn deactivate_takes_the_row_out_of_use_and_keeps_it_on_record() {
    let mut db = Db::new();
    db.register_or_get(111, Some("alice"), 1000);
    db.approve(1, "tg_111", "abcd", 2000);
    assert!(db.deactivate_user(111, 9000));
    assert!(!db.deactivate_user(111, 9000));
    assert!(db.get_approved(111).is_none());
    assert!(db.get_active(111).is_none());
    let row = db.get_request(1).unwrap();
    assert!(!row.active);
    assert_eq!(row.status, RequestStatus::Approved);
    assert_eq!(row.secret.as_deref(), Some("abcd"));
    assert_eq!(row.decided_at, Some(2000));
    match db.register_or_get(111, Some("alice"), 5000) {
        RegisterResult::NewPending(request) => assert_eq!(request.id, 2),
        other => panic!("unexpected {:?}", other),
    }
}

#[test]
fn deactivated_pending_request_cannot_be_decided() {
    let mut db = Db::new();
    db.register_or_get(111, None, 1000);
    assert!(db.deactivate_user(111, 9000));
    assert!(db.get_pending_by_id(1).is_none());
    assert!(db.approve(1, "tg_111", "abcd", 9500).is_none());
    assert!(db.reject(1, 9500).is_none());
    let row = db.get_request(1).unwrap();
    assert_eq!(row.status, RequestStatus::Rejected);
    assert_eq!(row.decided_at, Some(9000));
    assert!(!row.active);
    match db.register_or_get(111, None, 9600) {
        RegisterResult::NewPending(request) => assert_eq!(request.id, 2),
        other => panic!("unexpected {:?}", other),
    }
}

#[test]
fn deactivate_of_an_unknown_user_changes_nothing() {
    let mut db = Db::new();
    db.register_or_get(111, None, 1000);
    assert!(!db.deactivate_user(222, 9000));
    assert!(db.get_pending_by_id(1).is_some());
}

#[test]
fn token_is_filed_unused() {
    let mut db = Db::new();
    let token = db.create_invite_token("abc", true, Some(3), 5000, Some(7), 1000).unwrap();
    assert_eq!(token.token, "abc");
    assert!(token.auto_approve);
    assert_eq!(token.max_usage, Some(3));
    assert_eq!(token.usage_count, 0);
    assert_eq!(token.expires_at, 5000);
    assert_eq!(token.created_by, Some(7));
    assert_eq!(token.created_at, 1000);
    assert_eq!(db.get_invite_token("abc").unwrap().usage_count, 0);
}

#[test]
fn token_name_is_taken_once_and_limit_is_not_negative() {
    let mut db = Db::new();
    assert!(db.create_invite_token("abc", false, None, 5000, None, 1000).is_some());
    assert!(db.create_invite_token("abc", true, Some(1), 6000, None, 1001).is_none());
    assert!(db.create_invite_token("neg", true, Some(-1), 6000, None, 1001).is_none());
    assert!(db.create_invite_token("zero", true, Some(0), 6000, None, 1001).is_some());
    let kept = db.get_invite_token("abc").unwrap();
    assert!(!kept.auto_approve);
    assert_eq!(kept.expires_at, 5000);
    assert!(db.get_invite_token("neg").is_none());
}

#[test]
fn single_use_token_is_redeemed_once() {
    let mut db = Db::new();
    db.create_invite_token("once", false, Some(1), 5000, None, 1000);
    let mut succeeded = 0;
    for attempt in 0..10 {
        match db.redeem_invite_token("once", 2000 + attempt) {
            Ok(token) => {
                succeeded += 1;
                assert_eq!(token.usage_count, 1);
            }
            Err(e) => assert_eq!(e, TokenError::Exhausted),
        }
    }
    assert_eq!(succeeded, 1);
    assert_eq!(db.get_invite_token("once").unwrap().usage_count, 1);
}

#[test]
fn token_with_a_limit_stops_at_the_limit() {
    let mut db = Db::new();
    db.create_invite_token("three", false, Some(3), 5000, None, 1000);
    assert_eq!(db.redeem_invite_token("three", 2000).unwrap().usage_count, 1);
    assert_eq!(db.redeem_invite_token("three", 2000).unwrap().usage_count, 2);
    assert_eq!(db.redeem_invite_token("three", 2000).unwrap().usage_count, 3);
    assert_eq!(db.redeem_invite_token("three", 2000).unwrap_err(), TokenError::Exhausted);
    assert_eq!(db.get_invite_token("three").unwrap().usage_count, 3);
}

#[test]
fn token_without_a_limit_keeps_counting() {
    let mut db = Db::new();
    db.create_invite_token("open", false, None, 5000, None, 1000);
    for n in 1..=20 {
        assert_eq!(db.redeem_invite_token("open", 2000).unwrap().usage_count, n);
    }
}

#[test]
fn token_expires_after_its_time_and_not_at_it() {
    let mut db = Db::new();
    db.create_invite_token("t", false, None, 5000, None, 1000);
    assert!(db.redeem_invite_token("t", 5000).is_ok());
    assert_eq!(db.redeem_invite_token("t", 5001).unwrap_err(), TokenError::Expired);
    assert_eq!(db.get_invite_token("t").unwrap().usage_count, 1);
}

#[test]
fn expired_is_reported_before_exhausted() {
    let mut db = Db::new();
    db.create_invite_token("t", false, Some(0), 5000, None, 1000);
    assert_eq!(db.redeem_invite_token("t", 4000).unwrap_err(), TokenError::Exhausted);
    assert_eq!(db.redeem_invite_token("t", 6000).unwrap_err(), TokenError::Expired);
}

#[test]
fn unknown_token_is_refused() {
    let mut db = Db::new();
    db.create_invite_token("t", false, None, 5000, None, 1000);
    assert_eq!(db.redeem_invite_token("u", 2000).unwrap_err(), TokenError::Unknown);
    assert_eq!(db.redeem_invite_token("", 2000).unwrap_err(), TokenError::Unknown);
    assert_eq!(db.get_invite_token("t").unwrap().usage_count, 0);
}

#[test]
fn clone_is_independent() {
    let mut db = Db::new();
    db.register_or_get(111, Some("alice"), 1000);
    db.create_invite_token("t", false, None, 5000, None, 1000);
    let mut copy = db.clone();
    copy.approve(1, "tg_111", "abcd", 2000);
    copy.redeem_invite_token("t", 2000).unwrap();
    assert_eq!(db.get_request(1).unwrap().status, RequestStatus::Pending);
    assert_eq!(db.get_invite_token("t").unwrap().usage_count, 0);
    assert_eq!(copy.get_request(1).unwrap().status, RequestStatus::Approved);
    assert_eq!(copy.get_invite_token("t").unwrap().usage_count, 1);
}

#[test]
fn status_labels() {
    assert_eq!(RequestStatus::Pending.label(), "pending");
    assert_eq!(RequestStatus::Approved.label(), "approved");
    assert_eq!(RequestStatus::Rejected.label(), "rejected");
}

fn row(id: i64, user: i64, status: RequestStatus, active: bool) -> RegistrationRequest {
    let approved = status == RequestStatus::Approved;
    let pending = status == RequestStatus::Pending;
    RegistrationRequest {
        id,
        tg_user_id: user,
        tg_username: None,
        tg_display_name: None,
        status,
        telemt_username: if approved { Some(format!("tg_{}", user)) } else { None },
        secret: if approved { Some("abcd".to_string()) } else { None },
        created_at: 10,
        decided_at: if pending { None } else { Some(20) },
        active,
    }
}

fn invite(name: &str, max_usage: Option<i64>, usage_count: i64) -> InviteToken {
    InviteToken {
        token: name.to_string(),
        auto_approve: false,
        max_usage,
        usage_count,
        expires_at: 100,
        created_by: None,
        created_at: 10,
    }
}

#[test]
fn rows_come_back_as_they_were_filed() {
    let mut db = Db::new();
    db.register_or_get(111, Some("alice"), 1000);
    db.register_or_get(222, None, 1001);
    db.approve(2, "tg_222", "abcd", 2000);
    db.create_invite_token("t", true, Some(2), 5000, Some(9), 1000);
    db.redeem_invite_token("t", 1500).unwrap();
    let requests = db.requests();
    let tokens = db.tokens();
    assert_eq!(requests.len(), 2);
    assert_eq!(requests[0].id, 1);
    assert_eq!(requests[0].tg_username.as_deref(), Some("alice"));
    assert_eq!(requests[1].status, RequestStatus::Approved);
    assert_eq!(tokens.len(), 1);
    assert_eq!(tokens[0].usage_count, 1);
    let loaded = Db::from_rows(requests, tokens).unwrap();
    assert_eq!(loaded.request_count(), 2);
    assert_eq!(loaded.get_approved(222), Some(("tg_222".to_string(), "abcd".to_string())));
    assert!(loaded.get_pending_by_id(1).is_some());
    assert_eq!(loaded.get_invite_token("t").unwrap().usage_count, 1);
}

#[test]
fn loading_accepts_consistent_rows() {
    assert!(Db::from_rows(vec![], vec![]).is_some());
    let requests = vec![
        row(1, 111, RequestStatus::Approved, false),
        row(2, 111, RequestStatus::Pending, true),
        row(3, 222, RequestStatus::Rejected, true),
    ];
    let tokens = vec![invite("a", Some(3), 3), invite("b", None, 0)];
    assert!(Db::from_rows(requests, tokens).is_some());
}

#[test]
fn loading_refuses_rows_out_of_order() {
    assert!(Db::from_rows(vec![row(2, 111, RequestStatus::Pending, true)], vec![]).is_none());
    assert!(Db::from_rows(vec![row(0, 111, RequestStatus::Pending, true)], vec![]).is_none());
    assert!(Db::from_rows(vec![row(i64::MIN, 111, RequestStatus::Pending, true)], vec![]).is_none());
    let requests =
        vec![row(1, 111, RequestStatus::Pending, true), row(1, 222, RequestStatus::Pending, true)];
    assert!(Db::from_rows(requests, vec![]).is_none());
}

#[test]
fn loading_refuses_inconsistent_rows() {
    let mut secret_without_approval = row(1, 111, RequestStatus::Pending, true);
    secret_without_approval.secret = Some("abcd".to_string());
    assert!(Db::from_rows(vec![secret_without_approval], vec![]).is_none());
    let mut approval_without_secret = row(1, 111, RequestStatus::Approved, true);
    approval_without_secret.secret = None;
    assert!(Db::from_rows(vec![approval_without_secret], vec![]).is_none());
    let mut approval_without_name = row(1, 111, RequestStatus::Approved, true);
    approval_without_name.telemt_username = None;
    assert!(Db::from_rows(vec![approval_without_name], vec![]).is_none());
    let mut pending_with_decision = row(1, 111, RequestStatus::Pending, true);
    pending_with_decision.decided_at = Some(5);
    assert!(Db::from_rows(vec![pending_with_decision], vec![]).is_none());
    let waiting_out_of_use = row(1, 111, RequestStatus::Pending, false);
    assert!(Db::from_rows(vec![waiting_out_of_use], vec![]).is_none());
    let mut rejection_without_decision = row(1, 111, RequestStatus::Rejected, true);
    rejection_without_decision.decided_at = None;
    assert!(Db::from_rows(vec![rejection_without_decision], vec![]).is_none());
}

#[test]
fn loading_refuses_two_active_rows_of_one_user() {
    let requests = vec![
        row(1, 111, RequestStatus::Rejected, true),
        row(2, 222, RequestStatus::Pending, true),
        row(3, 111, RequestStatus::Pending, true),
    ];
    assert!(Db::from_rows(requests, vec![]).is_none());
}

#[test]
fn loading_refuses_bad_tokens() {
    assert!(Db::from_rows(vec![], vec![invite("a", Some(1), 2)]).is_none());
    assert!(Db::from_rows(vec![], vec![invite("a", None, -1)]).is_none());
    assert!(Db::from_rows(vec![], vec![invite("a", None, 0), invite("a", None, 0)]).is_none());
    assert!(Db::from_rows(vec![], vec![invite("a", None, 0), invite("b", None, 0)]).is_some());
}

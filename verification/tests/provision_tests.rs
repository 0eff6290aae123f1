use telemt_admin::db::Db;
use telemt_admin::db::RegisterResult;
use telemt_admin::db::RequestStatus;
use telemt_admin::db::TokenError;
use telemt_admin::provision::approve;
use telemt_admin::provision::approve_with_secret;
use telemt_admin::provision::create_direct;
use telemt_admin::provision::create_direct_with_secret;
use telemt_admin::provision::deactivate;
use telemt_admin::provision::proxy_link_for;
use telemt_admin::provision::redeem_invite_token;
use telemt_admin::provision::redeem_invite_token_with_secret;
use telemt_admin::provision::ProvisionError;
use telemt_admin::telemt_cfg::CensorshipSection;
use telemt_admin::telemt_cfg::ConfigErrorKind;
use telemt_admin::telemt_cfg::ListenerEntry;
use telemt_admin::telemt_cfg::ServerSection;
use telemt_admin::telemt_cfg::TelemtConfig;
use telemt_admin::telemt_cfg::TelemtConfigRaw;

const FILE: &str = "[server]\nport = 443\n\n[access.users]\nadmin = \"0123\"\n";

fn config() -> TelemtConfig {
    TelemtConfig::new("/etc/telemt.toml")
}

fn raw() -> TelemtConfigRaw {
    TelemtConfigRaw {
        server: Some(ServerSection {
            port: None,
            listeners: Some(vec![ListenerEntry {
                announce: Some("proxy.example.org".to_string()),
                announce_ip: None,
            }]),
        }),
        censorship: Some(CensorshipSection { tls_domain: Some("example.com".to_string()) }),
    }
}

fn secret_of(text: &str, user: &str) -> Option<String> {
    let doc: toml_edit::DocumentMut = text.parse().unwrap();
    doc["access"]["users"].get(user).and_then(|v| v.as_str()).map(|s| s.to_string())
}

fn count_of(text: &str, user: &str) -> usize {
    text.lines().filter(|line| line.starts_with(&format!("{} =", user))).count()
}

#[test]
fn registration_approval_and_link() {
    let mut db = Db::new();
    let cfg = config();
    match db.register_or_get(111, Some("alice"), 1000) {
        RegisterResult::NewPending(request) => assert_eq!(request.id, 1),
        other => panic!("unexpected {:?}", other),
    }
    assert!(matches!(db.register_or_get(111, Some("alice"), 1001), RegisterResult::AlreadyPending));
    let grant = approve(&mut db, &cfg, FILE, 1, 2000).unwrap().unwrap();
    assert_eq!(grant.request.id, 1);
    assert_eq!(grant.request.tg_user_id, 111);
    assert_eq!(grant.telemt_username, "tg_111");
    assert_eq!(grant.secret.len(), 32);
    assert!(grant.secret.chars().all(|c| c.is_ascii_digit() || ('a'..='f').contains(&c)));
    assert_eq!(secret_of(&grant.new_content, "tg_111"), Some(grant.secret.clone()));
    let link = proxy_link_for(&cfg, &raw(), &grant.secret).unwrap();
    assert_eq!(
        link,
        format!(
            "tg://proxy?server=proxy.example.org&port=443&secret=ee{}6578616d706c652e636f6d",
            grant.secret
        )
    );
    match db.register_or_get(111, None, 3000) {
        RegisterResult::Approved(secret) => {
            assert_eq!(secret, grant.secret);
            assert_eq!(proxy_link_for(&cfg, &raw(), &secret).unwrap(), link);
        }
        other => panic!("unexpected {:?}", other),
    }
}

#[test]
fn approve_twice_grants_once() {
    let mut db = Db::new();
    let cfg = config();
    db.register_or_get(111, Some("alice"), 1000);
    let first = approve(&mut db, &cfg, FILE, 1, 2000).unwrap().unwrap();
    let second = approve(&mut db, &cfg, &first.new_content, 1, 3000).unwrap();
    assert!(second.is_none());
    assert_eq!(count_of(&first.new_content, "tg_111"), 1);
    assert_eq!(secret_of(&first.new_content, "tg_111"), Some(first.secret.clone()));
    let row = db.get_request(1).unwrap();
    assert_eq!(row.status, RequestStatus::Approved);
    assert_eq!(row.secret, Some(first.secret));
    assert_eq!(row.decided_at, Some(2000));
}

#[test]
fn approve_with_secret_sets_credential_and_record() {
    let mut db = Db::new();
    let cfg = config();
    db.register_or_get(111, Some("alice"), 1000);
    let grant = approve_with_secret(&mut db, &cfg, FILE, 1, "00112233445566778899aabbccddeeff", 2000)
        .unwrap()
        .unwrap();
    assert_eq!(grant.request.status, RequestStatus::Pending);
    assert_eq!(grant.secret, "00112233445566778899aabbccddeeff");
    assert_eq!(
        grant.new_content,
        "[server]\nport = 443\n\n[access.users]\nadmin = \"0123\"\ntg_111 = \"00112233445566778899aabbccddeeff\"\n"
    );
    assert_eq!(
        db.get_approved(111),
        Some(("tg_111".to_string(), "00112233445566778899aabbccddeeff".to_string()))
    );
}

#[test]
fn approve_of_what_is_not_pending_gives_nothing() {
    let mut db = Db::new();
    let cfg = config();
    assert!(approve(&mut db, &cfg, FILE, 1, 2000).unwrap().is_none());
    db.register_or_get(111, None, 1000);
    db.reject(1, 1500);
    assert!(approve(&mut db, &cfg, FILE, 1, 2000).unwrap().is_none());
    assert!(approve(&mut db, &cfg, "not toml [", 1, 2000).unwrap().is_none());
    assert_eq!(db.get_request(1).unwrap().status, RequestStatus::Rejected);
}

#[test]
fn approve_that_cannot_write_leaves_the_request_pending() {
    let mut db = Db::new();
    let cfg = config();
    db.register_or_get(111, None, 1000);
    let e = approve(&mut db, &cfg, "access = 5\n", 1, 2000).unwrap_err();
    assert_eq!(e.kind, ConfigErrorKind::MissingAccess);
    let e = approve(&mut db, &cfg, "[access]\nusers = 5\n", 1, 2000).unwrap_err();
    assert_eq!(e.kind, ConfigErrorKind::MissingUsers);
    let e = approve(&mut db, &cfg, "[[[", 1, 2000).unwrap_err();
    assert_eq!(e.kind, ConfigErrorKind::Unparsable);
    assert_eq!(db.get_request(1).unwrap().status, RequestStatus::Pending);
    assert!(approve(&mut db, &cfg, FILE, 1, 2000).unwrap().is_some());
}

#[test]
fn create_direct_grants_whatever_was_recorded() {
    let mut db = Db::new();
    let cfg = config();
    db.register_or_get(111, Some("alice"), 1000);
    db.reject(1, 1500);
    let grant = create_direct(&mut db, &cfg, FILE, 111, 2000).unwrap();
    assert_eq!(grant.telemt_username, "tg_111");
    assert_eq!(grant.request.id, 1);
    assert_eq!(grant.request.status, RequestStatus::Approved);
    assert_eq!(grant.request.secret, Some(grant.secret.clone()));
    assert_eq!(secret_of(&grant.new_content, "tg_111"), Some(grant.secret.clone()));
    assert_eq!(db.get_approved(111), Some(("tg_111".to_string(), grant.secret.clone())));
    let again = create_direct(&mut db, &cfg, &grant.new_content, 111, 3000).unwrap();
    assert_ne!(again.secret, grant.secret);
    assert_eq!(count_of(&again.new_content, "tg_111"), 1);
    assert_eq!(secret_of(&again.new_content, "tg_111"), Some(again.secret.clone()));
    assert_eq!(db.get_approved(111), Some(("tg_111".to_string(), again.secret)));
    assert_eq!(db.request_count(), 1);
}

#[test]
fn create_direct_for_an_unknown_user() {
    let mut db = Db::new();
    let cfg = config();
    let grant = create_direct_with_secret(&mut db, &cfg, FILE, 555, "abcd", 2000).unwrap();
    assert_eq!(grant.request.id, 1);
    assert_eq!(grant.request.tg_user_id, 555);
    assert_eq!(grant.secret, "abcd");
    assert_eq!(
        grant.new_content,
        "[server]\nport = 443\n\n[access.users]\nadmin = \"0123\"\ntg_555 = \"abcd\"\n"
    );
    assert!(matches!(db.register_or_get(555, None, 3000), RegisterResult::Approved(s) if s == "abcd"));
}

#[test]
fn create_direct_that_cannot_write_changes_nothing() {
    let mut db = Db::new();
    let cfg = config();
    let e = create_direct(&mut db, &cfg, "[access]\nusers = 5\n", 555, 2000).unwrap_err();
    assert_eq!(e.kind, ConfigErrorKind::MissingUsers);
    assert_eq!(db.request_count(), 0);
}

#[test]
fn deactivate_removes_credential_and_row() {
    let mut db = Db::new();
    let cfg = config();
    db.register_or_get(111, None, 1000);
    let grant = approve(&mut db, &cfg, FILE, 1, 2000).unwrap().unwrap();
    let outcome = deactivate(&mut db, &cfg, &grant.new_content, 111, 9000);
    assert!(outcome.was_active);
    let removal = outcome.credential.unwrap();
    assert!(removal.existed);
    assert_eq!(removal.new_content.unwrap(), FILE);
    assert!(db.get_approved(111).is_none());
    assert!(!db.get_request(1).unwrap().active);
}

#[test]
fn deactivate_of_a_user_without_credential() {
    let mut db = Db::new();
    let cfg = config();
    db.register_or_get(111, None, 1000);
    let outcome = deactivate(&mut db, &cfg, FILE, 111, 9000);
    assert!(outcome.was_active);
    let removal = outcome.credential.unwrap();
    assert!(!removal.existed);
    assert_eq!(removal.new_content, None);
    assert_eq!(db.get_request(1).unwrap().status, RequestStatus::Rejected);
    let outcome = deactivate(&mut db, &cfg, FILE, 111, 9000);
    assert!(!outcome.was_active);
}

#[test]
fn deactivate_marks_the_row_even_if_the_file_is_broken() {
    let mut db = Db::new();
    let cfg = config();
    db.set_approved(111, "tg_111", "abcd", 1000);
    let outcome = deactivate(&mut db, &cfg, "[[[", 111, 9000);
    assert_eq!(outcome.credential.unwrap_err().kind, ConfigErrorKind::Unparsable);
    assert!(outcome.was_active);
    assert!(db.get_approved(111).is_none());
}

#[test]
fn redeem_with_a_manual_token_opens_a_request() {
    let mut db = Db::new();
    let cfg = config();
    db.create_invite_token("manual", false, Some(2), 5000, None, 1000);
    let r = redeem_invite_token(&mut db, &cfg, FILE, "manual", 111, Some("alice"), 2000).unwrap();
    assert_eq!(r.new_content, None);
    match r.result {
        RegisterResult::NewPending(request) => {
            assert_eq!(request.id, 1);
            assert_eq!(request.tg_username.as_deref(), Some("alice"));
        }
        other => panic!("unexpected {:?}", other),
    }
    assert_eq!(db.get_invite_token("manual").unwrap().usage_count, 1);
    assert!(db.get_pending_by_id(1).is_some());
}

#[test]
fn redeem_with_an_auto_token_grants_at_once() {
    let mut db = Db::new();
    let cfg = config();
    db.create_invite_token("auto", true, None, 5000, None, 1000);
    let r = redeem_invite_token(&mut db, &cfg, FILE, "auto", 111, Some("alice"), 2000).unwrap();
    let secret = match r.result {
        RegisterResult::Approved(secret) => secret,
        other => panic!("unexpected {:?}", other),
    };
    assert_eq!(secret.len(), 32);
    let text = r.new_content.unwrap();
    assert_eq!(secret_of(&text, "tg_111"), Some(secret.clone()));
    let row = db.get_request(1).unwrap();
    assert_eq!(row.status, RequestStatus::Approved);
    assert_eq!(row.tg_username.as_deref(), Some("alice"));
    assert_eq!(row.decided_at, Some(2000));
    assert_eq!(db.get_approved(111), Some(("tg_111".to_string(), secret)));
    assert_eq!(db.get_invite_token("auto").unwrap().usage_count, 1);
}

#[test]
fn redeem_with_an_auto_token_approves_a_waiting_request() {
    let mut db = Db::new();
    let cfg = config();
    db.register_or_get(999, None, 500);
    db.register_or_get(111, Some("alice"), 600);
    db.create_invite_token("auto", true, None, 5000, None, 1000);
    let r = redeem_invite_token_with_secret(&mut db, &cfg, FILE, "auto", 111, None, "abcd", 2000)
        .unwrap();
    assert!(matches!(r.result, RegisterResult::Approved(ref s) if s == "abcd"));
    assert_eq!(
        r.new_content.unwrap(),
        "[server]\nport = 443\n\n[access.users]\nadmin = \"0123\"\ntg_111 = \"abcd\"\n"
    );
    assert_eq!(db.request_count(), 2);
    assert_eq!(db.get_request(2).unwrap().status, RequestStatus::Approved);
    assert_eq!(db.get_request(1).unwrap().status, RequestStatus::Pending);
}

#[test]
fn redeem_does_not_reopen_a_decided_user() {
    let mut db = Db::new();
    let cfg = config();
    db.create_invite_token("auto", true, None, 5000, None, 1000);
    db.register_or_get(111, None, 600);
    db.reject(1, 700);
    let r = redeem_invite_token(&mut db, &cfg, FILE, "auto", 111, None, 2000).unwrap();
    assert!(matches!(r.result, RegisterResult::Rejected));
    assert_eq!(r.new_content, None);
    db.set_approved(222, "tg_222", "abcd", 800);
    let r = redeem_invite_token(&mut db, &cfg, FILE, "auto", 222, None, 2000).unwrap();
    assert!(matches!(r.result, RegisterResult::Approved(ref s) if s == "abcd"));
    assert_eq!(r.new_content, None);
    assert_eq!(db.get_invite_token("auto").unwrap().usage_count, 2);
}

#[test]
fn redeem_refuses_a_bad_token_and_does_not_count_it() {
    let mut db = Db::new();
    let cfg = config();
    db.create_invite_token("t", true, Some(1), 5000, None, 1000);
    let e = redeem_invite_token(&mut db, &cfg, FILE, "nope", 111, None, 2000).unwrap_err();
    assert!(matches!(e, ProvisionError::TokenInvalid(TokenError::Unknown)));
    let e = redeem_invite_token(&mut db, &cfg, FILE, "t", 111, None, 5001).unwrap_err();
    assert!(matches!(e, ProvisionError::TokenInvalid(TokenError::Expired)));
    assert_eq!(db.get_invite_token("t").unwrap().usage_count, 0);
    assert_eq!(db.request_count(), 0);
    assert!(redeem_invite_token(&mut db, &cfg, FILE, "t", 111, None, 2000).is_ok());
    let e = redeem_invite_token(&mut db, &cfg, FILE, "t", 222, None, 2000).unwrap_err();
    assert!(matches!(e, ProvisionError::TokenInvalid(TokenError::Exhausted)));
    assert_eq!(db.get_invite_token("t").unwrap().usage_count, 1);
    assert_eq!(db.request_count(), 1);
}

#[test]
fn single_use_token_serves_one_of_many_users() {
    let mut db = Db::new();
    let cfg = config();
    db.create_invite_token("once", true, Some(1), 5000, None, 1000);
    let mut text = FILE.to_string();
    let mut granted = 0;
    for user in 1..=8 {
        match redeem_invite_token(&mut db, &cfg, &text, "once", user, None, 2000) {
            Ok(r) => {
                granted += 1;
                text = r.new_content.unwrap();
            }
            Err(e) => assert!(matches!(e, ProvisionError::TokenInvalid(TokenError::Exhausted))),
        }
    }
    assert_eq!(granted, 1);
    assert_eq!(db.get_invite_token("once").unwrap().usage_count, 1);
    assert_eq!(db.request_count(), 1);
    assert!(secret_of(&text, "tg_1").is_some());
    assert!(secret_of(&text, "tg_2").is_none());
}

#[test]
fn redeem_that_cannot_write_changes_nothing() {
    let mut db = Db::new();
    let cfg = config();
    db.create_invite_token("auto", true, Some(1), 5000, None, 1000);
    let e = redeem_invite_token(&mut db, &cfg, "[access]\nusers = 5\n", "auto", 111, None, 2000)
        .unwrap_err();
    match e {
        ProvisionError::Credential(e) => assert_eq!(e.kind, ConfigErrorKind::MissingUsers),
        other => panic!("unexpected {:?}", other),
    }
    assert_eq!(db.get_invite_token("auto").unwrap().usage_count, 0);
    assert_eq!(db.request_count(), 0);
}

#[test]
fn link_needs_the_parameters() {
    let cfg = config();
    let raw = TelemtConfigRaw { server: None, censorship: None };
    assert_eq!(
        proxy_link_for(&cfg, &raw, "abcd").unwrap_err().kind,
        ConfigErrorKind::MissingAnnounce
    );
}

#[test]
fn approve_makes_the_table_of_credentials_where_it_is_missing() {
    let mut db = Db::new();
    let cfg = config();
    db.register_or_get(111, None, 1000);
    let grant = approve_with_secret(&mut db, &cfg, "[server]\nport = 1\n", 1, "abcd", 2000)
        .unwrap()
        .unwrap();
    assert_eq!(grant.new_content, "[server]\nport = 1\n\n[access.users]\ntg_111 = \"abcd\"\n");
}

//! Granting and revoking access: each operation changes the record of
//! requests and the text of the proxy's configuration together.
//!
//! An operation takes the configuration file's text as it is now and hands
//! back the text to write. Whatever can fail is done before the record is
//! touched, so an operation that reports an error has changed nothing; the
//! caller writes the new text and stores the changed record.

use crate::db::active_row;
use crate::db::approve_state;
use crate::db::Db;
use crate::db::DbView;
use crate::db::deactivate_state;
use crate::db::is_active_row;
use crate::db::lemma_active_row_unique;
use crate::db::lemma_redeem_keeps_wf;
use crate::db::pending_row;
use crate::db::redeem_result;
use crate::db::redeem_state;
use crate::db::register_result;
use crate::db::register_state;
use crate::db::RegisterResult;
use crate::db::RegisterResultView;
use crate::db::RegistrationRequest;
use crate::db::RequestStatus;
use crate::db::RequestView;
use crate::db::set_approved_result;
use crate::db::set_approved_state;
use crate::db::token_row;
use crate::db::TokenError;
use crate::decimal::int_decimal;
use crate::decimal::lemma_int_decimal_injective;
use crate::decimal::push_i64_decimal;
use crate::link::build_proxy_link;
use crate::link::generate_user_secret;
use crate::link::is_user_secret;
use crate::link::proxy_link_spec;
use crate::telemt_cfg::ConfigErrorKind;
use crate::telemt_cfg::link_params_spec;
use crate::telemt_cfg::RawConfigView;
use crate::telemt_cfg::removal_view;
use crate::telemt_cfg::remove_outcome;
use crate::telemt_cfg::TelemtConfig;
use crate::telemt_cfg::TelemtConfigError;
use crate::telemt_cfg::TelemtConfigRaw;
use crate::telemt_cfg::text_or_kind;
use crate::telemt_cfg::upsert_outcome;
use crate::telemt_cfg::UserRemoval;
use crate::text::opt_str;
use vstd::prelude::*;
use vstd::string::StringExecFns;

verus! {

/// The proxy username of a chat user: `tg_` and the user's id in decimal.
pub open spec fn telemt_username_spec(tg_user_id: i64) -> Seq<char> {
    "tg_"@ + int_decimal(tg_user_id as int)
}

/// The proxy username of a chat user.
pub fn telemt_username(tg_user_id: i64) -> (name: String)
    ensures
        name@ == telemt_username_spec(tg_user_id),
{
    let mut name = String::from_str("tg_");
    push_i64_decimal(&mut name, tg_user_id);
    name
}

/// Two chat users have the same proxy username only if they are the same
/// user; and one user's proxy username is always the same.
pub proof fn lemma_telemt_username_injective(a: i64, b: i64)
    ensures
        telemt_username_spec(a) == telemt_username_spec(b) <==> a == b,
{
    if telemt_username_spec(a) == telemt_username_spec(b) {
        let prefix = "tg_"@;
        let x = int_decimal(a as int);
        let y = int_decimal(b as int);
        assert((prefix + x).subrange(prefix.len() as int, (prefix + x).len() as int) =~= x);
        assert((prefix + y).subrange(prefix.len() as int, (prefix + y).len() as int) =~= y);
        lemma_int_decimal_injective(a as int, b as int);
    }
}

/// The link for a secret, from the parsed configuration: its parameters are
/// read, and the link is built from them.
pub open spec fn proxy_link_for_spec(raw: RawConfigView, secret: Seq<char>) -> Result<
    Seq<char>,
    ConfigErrorKind,
> {
    match link_params_spec(raw) {
        Ok(params) => Ok(proxy_link_spec(params, secret)),
        Err(kind) => Err(kind),
    }
}

/// The link that hands `secret` to its user, with the proxy's parameters as
/// the configuration gives them now.
pub fn proxy_link_for(config: &TelemtConfig, raw: &TelemtConfigRaw, secret: &str) -> (res: Result<
    String,
    TelemtConfigError,
>)
    ensures
        text_or_kind(res) == proxy_link_for_spec(raw@, secret@),
{
    match config.read_link_params(raw) {
        Err(e) => Err(e),
        Ok(params) => match build_proxy_link(&params, secret) {
            Ok(link) => Ok(link),
            Err(_) => unreached(),
        },
    }
}

/// Access as it was granted: to whom, under which proxy username and secret,
/// and the configuration text that holds the credential.
#[derive(Debug)]
pub struct Grant {
    /// The request that was granted. For an approval it is the request as it
    /// was found waiting; for a direct grant it is the row as it now stands.
    pub request: RegistrationRequest,
    pub telemt_username: String,
    pub secret: String,
    /// The text to write to the configuration file.
    pub new_content: String,
}

pub ghost struct GrantView {
    pub request: RequestView,
    pub telemt_username: Seq<char>,
    pub secret: Seq<char>,
    pub new_content: Seq<char>,
}

impl View for Grant {
    type V = GrantView;

    open spec fn view(&self) -> GrantView {
        GrantView {
            request: self.request@,
            telemt_username: self.telemt_username@,
            secret: self.secret@,
            new_content: self.new_content@,
        }
    }
}

/// What approving a request gives: nothing for a request that is not
/// waiting, else the grant, or the reason why the credential cannot be
/// written.
pub open spec fn approve_outcome(
    v: DbView,
    content: Seq<char>,
    request_id: i64,
    secret: Seq<char>,
) -> Result<Option<GrantView>, ConfigErrorKind> {
    match pending_row(v, request_id) {
        None => Ok(None),
        Some(i) => {
            let name = telemt_username_spec(v.requests[i].tg_user_id);
            match upsert_outcome(content, name, secret) {
                Err(kind) => Err(kind),
                Ok(text) => Ok(
                    Some(
                        GrantView {
                            request: v.requests[i],
                            telemt_username: name,
                            secret: secret,
                            new_content: text,
                        },
                    ),
                ),
            }
        },
    }
}

/// The record after approving a request: the request is approved where a
/// grant was made, and nothing changes otherwise.
pub open spec fn approve_db(
    v: DbView,
    content: Seq<char>,
    request_id: i64,
    secret: Seq<char>,
    now: i64,
) -> DbView {
    match approve_outcome(v, content, request_id, secret) {
        Ok(Some(grant)) => approve_state(v, request_id, grant.telemt_username, secret, now),
        _ => v,
    }
}

/// The view of what an approval gives.
pub open spec fn approval_view(r: Result<Option<Grant>, TelemtConfigError>) -> Result<
    Option<GrantView>,
    ConfigErrorKind,
> {
    match r {
        Ok(Some(grant)) => Ok(Some(grant@)),
        Ok(None) => Ok(None),
        Err(e) => Err(e.kind),
    }
}

/// Approves a waiting request with the given secret: the credential is set
/// in the configuration text under the user's proxy username, and the
/// request is recorded as approved with it. A request that is unknown or
/// already decided gives `None`; where the credential cannot be set, the
/// error is reported. In both cases the record stays as it was.
pub fn approve_with_secret(
    db: &mut Db,
    config: &TelemtConfig,
    content: &str,
    request_id: i64,
    secret: &str,
    now: i64,
) -> (res: Result<Option<Grant>, TelemtConfigError>)
    requires
        old(db).wf(),
    ensures
        final(db).wf(),
        approval_view(res) == approve_outcome(old(db)@, content@, request_id, secret@),
        final(db)@ == approve_db(old(db)@, content@, request_id, secret@, now),
{
    let request = match db.get_pending_by_id(request_id) {
        Some(request) => request,
        None => {
            return Ok(None);
        },
    };
    let name = telemt_username(request.tg_user_id);
    let new_content = match config.upsert_user(content, name.as_str(), secret) {
        Ok(text) => text,
        Err(e) => {
            return Err(e);
        },
    };
    let approved = db.approve(request_id, name.as_str(), secret, now);
    Ok(
        Some(
            Grant {
                request: request,
                telemt_username: name,
                secret: secret.to_owned(),
                new_content: new_content,
            },
        ),
    )
}

/// Approves a waiting request with a fresh secret. The outcome is that of
/// `approve_with_secret` for some secret of 32 lowercase hex digits.
pub fn approve(db: &mut Db, config: &TelemtConfig, content: &str, request_id: i64, now: i64) -> (res:
    Result<Option<Grant>, TelemtConfigError>)
    requires
        old(db).wf(),
    ensures
        final(db).wf(),
        exists|secret: Seq<char>|
            {
                &&& is_user_secret(secret)
                &&& approval_view(res) == approve_outcome(old(db)@, content@, request_id, secret)
                &&& final(db)@ == approve_db(old(db)@, content@, request_id, secret, now)
            },
{
    let secret = generate_user_secret();
    approve_with_secret(db, config, content, request_id, secret.as_str(), now)
}

/// What granting access directly gives: the grant, or the reason why the
/// credential cannot be written.
pub open spec fn create_direct_outcome(
    v: DbView,
    content: Seq<char>,
    tg_user_id: i64,
    secret: Seq<char>,
    now: i64,
) -> Result<GrantView, ConfigErrorKind> {
    let name = telemt_username_spec(tg_user_id);
    match upsert_outcome(content, name, secret) {
        Err(kind) => Err(kind),
        Ok(text) => Ok(
            GrantView {
                request: set_approved_result(v, tg_user_id, name, secret, now),
                telemt_username: name,
                secret: secret,
                new_content: text,
            },
        ),
    }
}

/// The record after granting access directly.
pub open spec fn create_direct_db(
    v: DbView,
    content: Seq<char>,
    tg_user_id: i64,
    secret: Seq<char>,
    now: i64,
) -> DbView {
    match create_direct_outcome(v, content, tg_user_id, secret, now) {
        Ok(grant) => set_approved_state(v, tg_user_id, grant.telemt_username, secret, now),
        Err(_) => v,
    }
}

/// The view of what a direct grant gives.
pub open spec fn grant_view(r: Result<Grant, TelemtConfigError>) -> Result<
    GrantView,
    ConfigErrorKind,
> {
    match r {
        Ok(grant) => Ok(grant@),
        Err(e) => Err(e.kind),
    }
}

/// Grants a user access with the given secret, whatever the record said of
/// the user before: the credential is set in the configuration text, and the
/// user is recorded as approved with it. Where the credential cannot be set,
/// the error is reported and the record stays as it was.
pub fn create_direct_with_secret(
    db: &mut Db,
    config: &TelemtConfig,
    content: &str,
    tg_user_id: i64,
    secret: &str,
    now: i64,
) -> (res: Result<Grant, TelemtConfigError>)
    requires
        old(db).wf(),
        old(db)@.requests.len() < i64::MAX,
    ensures
        final(db).wf(),
        grant_view(res) == create_direct_outcome(old(db)@, content@, tg_user_id, secret@, now),
        final(db)@ == create_direct_db(old(db)@, content@, tg_user_id, secret@, now),
{
    let name = telemt_username(tg_user_id);
    let new_content = match config.upsert_user(content, name.as_str(), secret) {
        Ok(text) => text,
        Err(e) => {
            return Err(e);
        },
    };
    let request = db.set_approved(tg_user_id, name.as_str(), secret, now);
    Ok(
        Grant {
            request: request,
            telemt_username: name,
            secret: secret.to_owned(),
            new_content: new_content,
        },
    )
}

/// Grants a user access with a fresh secret. The outcome is that of
/// `create_direct_with_secret` for some secret of 32 lowercase hex digits.
pub fn create_direct(db: &mut Db, config: &TelemtConfig, content: &str, tg_user_id: i64, now: i64) -> (res:
    Result<Grant, TelemtConfigError>)
    requires
        old(db).wf(),
        old(db)@.requests.len() < i64::MAX,
    ensures
        final(db).wf(),
        exists|secret: Seq<char>|
            {
                &&& is_user_secret(secret)
                &&& grant_view(res) == create_direct_outcome(
                    old(db)@,
                    content@,
                    tg_user_id,
                    secret,
                    now,
                )
                &&& final(db)@ == create_direct_db(old(db)@, content@, tg_user_id, secret, now)
            },
{
    let secret = generate_user_secret();
    create_direct_with_secret(db, config, content, tg_user_id, secret.as_str(), now)
}

/// What became of a user's access: of the credential in the configuration,
/// and of the user's row in the record. Neither waits for the other.
#[derive(Debug)]
pub struct Deactivation {
    /// What became of the credential, or why it could not be removed.
    pub credential: Result<UserRemoval, TelemtConfigError>,
    /// Whether the user had an active row.
    pub was_active: bool,
}

/// Revokes a user's access: the credential under the user's proxy username
/// leaves the configuration text, and the user's row is taken out of use.
/// The row is taken out of use even where the credential cannot be removed.
pub fn deactivate(db: &mut Db, config: &TelemtConfig, content: &str, tg_user_id: i64, now: i64) -> (res:
    Deactivation)
    requires
        old(db).wf(),
    ensures
        final(db).wf(),
        removal_view(res.credential) == remove_outcome(content@, telemt_username_spec(tg_user_id)),
        res.was_active == active_row(old(db)@, tg_user_id).is_some(),
        final(db)@ == deactivate_state(old(db)@, tg_user_id, now),
{
    let name = telemt_username(tg_user_id);
    let credential = config.remove_user(content, name.as_str());
    let was_active = db.deactivate_user(tg_user_id, now);
    Deactivation { credential: credential, was_active: was_active }
}

/// Why access could not be provisioned.
#[derive(Debug)]
pub enum ProvisionError {
    /// The invite token cannot be redeemed.
    TokenInvalid(TokenError),
    /// The credential cannot be written to the configuration.
    Credential(TelemtConfigError),
}

pub ghost enum ProvisionErrorKind {
    TokenInvalid(TokenError),
    Credential(ConfigErrorKind),
}

impl View for ProvisionError {
    type V = ProvisionErrorKind;

    open spec fn view(&self) -> ProvisionErrorKind {
        match self {
            ProvisionError::TokenInvalid(e) => ProvisionErrorKind::TokenInvalid(*e),
            ProvisionError::Credential(e) => ProvisionErrorKind::Credential(e.kind),
        }
    }
}

/// What redeeming an invite token gave its holder.
#[derive(Debug)]
pub struct Redemption {
    /// Where the holder now stands. After an automatic approval it is
    /// `Approved` with the secret that was granted.
    pub result: RegisterResult,
    /// The text to write to the configuration file, where a credential was
    /// set.
    pub new_content: Option<String>,
}

pub ghost struct RedemptionView {
    pub result: RegisterResultView,
    pub new_content: Option<Seq<char>>,
}

impl View for Redemption {
    type V = RedemptionView;

    open spec fn view(&self) -> RedemptionView {
        RedemptionView {
            result: self.result@,
            new_content: match self.new_content {
                Some(text) => Some(text@),
                None => None,
            },
        }
    }
}

/// Whether redeeming a token grants access at once: the token approves by
/// itself, and its holder has no decided row, that is, the holder is new or
/// still waits.
pub open spec fn grants_at_once(v: DbView, token: Seq<char>, tg_user_id: i64) -> bool {
    &&& token_row(v, token) matches Some(k)
    &&& v.tokens[k].auto_approve
    &&& match active_row(v, tg_user_id) {
        Some(i) => v.requests[i].status == RequestStatus::Pending,
        None => true,
    }
}

/// What redeeming a token gives. The token is tested first, and a token
/// that cannot be used is refused. Then the holder registers as anybody
/// does; where the token approves by itself and the holder is new or still
/// waits, the holder's request is approved at once with the given secret.
pub open spec fn redeem_outcome(
    v: DbView,
    content: Seq<char>,
    token: Seq<char>,
    tg_user_id: i64,
    tg_username: Option<Seq<char>>,
    secret: Seq<char>,
    now: i64,
) -> Result<RedemptionView, ProvisionErrorKind> {
    match redeem_result(v, token, now) {
        Err(e) => Err(ProvisionErrorKind::TokenInvalid(e)),
        Ok(_) => if grants_at_once(v, token, tg_user_id) {
            match upsert_outcome(content, telemt_username_spec(tg_user_id), secret) {
                Err(kind) => Err(ProvisionErrorKind::Credential(kind)),
                Ok(text) => Ok(
                    RedemptionView {
                        result: RegisterResultView::Approved(secret),
                        new_content: Some(text),
                    },
                ),
            }
        } else {
            Ok(
                RedemptionView {
                    result: register_result(
                        redeem_state(v, token, now),
                        tg_user_id,
                        tg_username,
                        now,
                    ),
                    new_content: None,
                },
            )
        },
    }
}

/// The record after redeeming a token: unchanged where the redemption is
/// refused or fails; else the token is used once more, the holder is
/// registered, and where access is granted at once the holder's request is
/// approved.
pub open spec fn redeem_db(
    v: DbView,
    content: Seq<char>,
    token: Seq<char>,
    tg_user_id: i64,
    tg_username: Option<Seq<char>>,
    secret: Seq<char>,
    now: i64,
) -> DbView {
    match redeem_outcome(v, content, token, tg_user_id, tg_username, secret, now) {
        Err(_) => v,
        Ok(redemption) => {
            let registered = register_state(
                redeem_state(v, token, now),
                tg_user_id,
                tg_username,
                now,
            );
            if redemption.new_content is Some {
                approve_state(
                    registered,
                    registered.requests[active_row(registered, tg_user_id)->0].id,
                    telemt_username_spec(tg_user_id),
                    secret,
                    now,
                )
            } else {
                registered
            }
        },
    }
}

/// The view of what a redemption gives.
pub open spec fn redemption_view(r: Result<Redemption, ProvisionError>) -> Result<
    RedemptionView,
    ProvisionErrorKind,
> {
    match r {
        Ok(redemption) => Ok(redemption@),
        Err(e) => Err(e@),
    }
}

/// Redeems an invite token for a user, with the given secret for the case
/// that access is granted at once. A refused token or a credential that
/// cannot be written leaves the record as it was; in particular a refused
/// token is not counted as used.
pub fn redeem_invite_token_with_secret(
    db: &mut Db,
    config: &TelemtConfig,
    content: &str,
    token: &str,
    tg_user_id: i64,
    tg_username: Option<&str>,
    secret: &str,
    now: i64,
) -> (res: Result<Redemption, ProvisionError>)
    requires
        old(db).wf(),
        old(db)@.requests.len() < i64::MAX,
    ensures
        final(db).wf(),
        redemption_view(res) == redeem_outcome(
            old(db)@,
            content@,
            token@,
            tg_user_id,
            opt_str(tg_username),
            secret@,
            now,
        ),
        final(db)@ == redeem_db(
            old(db)@,
            content@,
            token@,
            tg_user_id,
            opt_str(tg_username),
            secret@,
            now,
        ),
{
    let ghost v = db@;
    let found = match db.get_invite_token(token) {
        Some(found) => found,
        None => {
            return Err(ProvisionError::TokenInvalid(TokenError::Unknown));
        },
    };
    if let Some(e) = found.refusal(now) {
        return Err(ProvisionError::TokenInvalid(e));
    }
    let active = db.get_active(tg_user_id);
    let waiting_id = match &active {
        Some(row) => match row.status {
            RequestStatus::Pending => Some(row.id),
            _ => None,
        },
        None => None,
    };
    let at_once = found.auto_approve && (active.is_none() || waiting_id.is_some());
    assert(at_once == grants_at_once(v, token@, tg_user_id));
    let name = telemt_username(tg_user_id);
    let new_content = if at_once {
        match config.upsert_user(content, name.as_str(), secret) {
            Ok(text) => Some(text),
            Err(e) => {
                return Err(ProvisionError::Credential(e));
            },
        }
    } else {
        None
    };
    proof {
        lemma_redeem_keeps_wf(v, token@, now);
    }
    let redeemed = db.redeem_invite_token(token, now);
    let ghost v1 = db@;
    assert(v1.requests == v.requests);
    assert(active_row(v1, tg_user_id) == active_row(v, tg_user_id)) by {
        assert forall|i: int| is_active_row(v1, i, tg_user_id) == is_active_row(v, i, tg_user_id) by {}
    }
    let registered = db.register_or_get(tg_user_id, tg_username, now);
    let ghost v2 = db@;
    if !at_once {
        return Ok(Redemption { result: registered, new_content: None });
    }
    let request_id = match registered {
        RegisterResult::NewPending(request) => request.id,
        _ => match waiting_id {
            Some(id) => id,
            None => 0,
        },
    };
    proof {
        match active_row(v1, tg_user_id) {
            Some(i) => {
                assert(v2 == v1);
                assert(v1.requests[i].id == i + 1);
                assert(request_id == v2.requests[i].id);
            },
            None => {
                let i = v1.requests.len() as int;
                assert(v2.requests[i].id == i + 1);
                assert(is_active_row(v2, i, tg_user_id));
                lemma_active_row_unique(v2, i, tg_user_id);
                assert(request_id == v2.requests[i].id);
            },
        }
        assert(pending_row(v2, request_id) is Some);
    }
    let approved = db.approve(request_id, name.as_str(), secret, now);
    Ok(Redemption { result: RegisterResult::Approved(secret.to_owned()), new_content: new_content })
}

/// Redeems an invite token for a user, with a fresh secret for the case
/// that access is granted at once. The outcome is that of
/// `redeem_invite_token_with_secret` for some secret of 32 lowercase hex
/// digits.
pub fn redeem_invite_token(
    db: &mut Db,
    config: &TelemtConfig,
    content: &str,
    token: &str,
    tg_user_id: i64,
    tg_username: Option<&str>,
    now: i64,
) -> (res: Result<Redemption, ProvisionError>)
    requires
        old(db).wf(),
        old(db)@.requests.len() < i64::MAX,
    ensures
        final(db).wf(),
        exists|secret: Seq<char>|
            {
                &&& is_user_secret(secret)
                &&& redemption_view(res) == redeem_outcome(
                    old(db)@,
                    content@,
                    token@,
                    tg_user_id,
                    opt_str(tg_username),
                    secret,
                    now,
                )
                &&& final(db)@ == redeem_db(
                    old(db)@,
                    content@,
                    token@,
                    tg_user_id,
                    opt_str(tg_username),
                    secret,
                    now,
                )
            },
{
    let secret = generate_user_secret();
    redeem_invite_token_with_secret(
        db,
        config,
        content,
        token,
        tg_user_id,
        tg_username,
        secret.as_str(),
        now,
    )
}

} // verus!

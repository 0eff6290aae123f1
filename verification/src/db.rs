//! The record of who asked for access and what was decided: registration
//! requests, the users they became, and invite tokens.
//!
//! `Db` holds its rows in memory. Every operation is stated over `DbView`,
//! the rows as mathematical sequences, and keeps `db_wf`.

use crate::text::clone_opt_text;
use crate::text::opt_str;
use crate::text::opt_text;
use crate::text::own_opt_text;
use crate::text::same_text;
use vstd::prelude::*;

verus! {

/// Where a registration request stands.
#[derive(Clone, Copy, Debug, PartialEq, Eq, Structural)]
pub enum RequestStatus {
    Pending,
    Approved,
    Rejected,
}

/// The word for a status.
pub open spec fn status_label(status: RequestStatus) -> Seq<char> {
    match status {
        RequestStatus::Pending => "pending"@,
        RequestStatus::Approved => "approved"@,
        RequestStatus::Rejected => "rejected"@,
    }
}

impl RequestStatus {
    /// The word for this status.
    pub fn label(&self) -> (res: &'static str)
        ensures
            res@ == status_label(*self),
    {
        match self {
            RequestStatus::Pending => "pending",
            RequestStatus::Approved => "approved",
            RequestStatus::Rejected => "rejected",
        }
    }
}

/// One registration request and, once decided, what became of it.
#[derive(Debug)]
pub struct RegistrationRequest {
    /// The request's number; requests are numbered from 1 as they come.
    pub id: i64,
    /// The chat user who asked.
    pub tg_user_id: i64,
    /// The user's handle, where the user has one.
    pub tg_username: Option<String>,
    /// The name the user goes by, where it is known.
    pub tg_display_name: Option<String>,
    pub status: RequestStatus,
    /// The user's name in the proxy's configuration, once approved.
    pub telemt_username: Option<String>,
    /// The user's secret, once approved.
    pub secret: Option<String>,
    /// When the request was filed, in seconds since 1970.
    pub created_at: i64,
    /// When the request was decided.
    pub decided_at: Option<i64>,
    /// Whether this row speaks for the user. A row that was taken out of
    /// use stays on record, and the user counts as unknown again.
    pub active: bool,
}

/// A code that lets its holder register without waiting for an invitation.
#[derive(Debug)]
pub struct InviteToken {
    /// The token's name: what its holder presents.
    pub token: String,
    /// Whether the token grants access without an administrator's decision.
    pub auto_approve: bool,
    /// How often the token may be used; `None` for any number of times.
    pub max_usage: Option<i64>,
    /// How often the token was used.
    pub usage_count: i64,
    /// The last moment at which the token can be used.
    pub expires_at: i64,
    /// The administrator who made the token.
    pub created_by: Option<i64>,
    pub created_at: i64,
}

/// What a registration attempt finds or starts.
#[derive(Debug)]
pub enum RegisterResult {
    /// The user has access; the secret is the one that was granted.
    Approved(String),
    /// The user was turned down.
    Rejected,
    /// A request of this user is still waiting.
    AlreadyPending,
    /// A request was opened and waits for an administrator.
    NewPending(RegistrationRequest),
}

/// Why an invite token cannot be redeemed.
#[derive(Clone, Copy, Debug, PartialEq, Eq, Structural)]
pub enum TokenError {
    /// No token of that name exists.
    Unknown,
    /// The token's time has run out.
    Expired,
    /// The token has been used as often as it allows.
    Exhausted,
}

pub ghost struct RequestView {
    pub id: i64,
    pub tg_user_id: i64,
    pub tg_username: Option<Seq<char>>,
    pub tg_display_name: Option<Seq<char>>,
    pub status: RequestStatus,
    pub telemt_username: Option<Seq<char>>,
    pub secret: Option<Seq<char>>,
    pub created_at: i64,
    pub decided_at: Option<i64>,
    pub active: bool,
}

pub ghost struct TokenView {
    pub token: Seq<char>,
    pub auto_approve: bool,
    pub max_usage: Option<i64>,
    pub usage_count: i64,
    pub expires_at: i64,
    pub created_by: Option<i64>,
    pub created_at: i64,
}

pub ghost enum RegisterResultView {
    Approved(Seq<char>),
    Rejected,
    AlreadyPending,
    NewPending(RequestView),
}

impl View for RegistrationRequest {
    type V = RequestView;

    open spec fn view(&self) -> RequestView {
        RequestView {
            id: self.id,
            tg_user_id: self.tg_user_id,
            tg_username: opt_text(self.tg_username),
            tg_display_name: opt_text(self.tg_display_name),
            status: self.status,
            telemt_username: opt_text(self.telemt_username),
            secret: opt_text(self.secret),
            created_at: self.created_at,
            decided_at: self.decided_at,
            active: self.active,
        }
    }
}

impl View for InviteToken {
    type V = TokenView;

    open spec fn view(&self) -> TokenView {
        TokenView {
            token: self.token@,
            auto_approve: self.auto_approve,
            max_usage: self.max_usage,
            usage_count: self.usage_count,
            expires_at: self.expires_at,
            created_by: self.created_by,
            created_at: self.created_at,
        }
    }
}

impl View for RegisterResult {
    type V = RegisterResultView;

    open spec fn view(&self) -> RegisterResultView {
        match self {
            RegisterResult::Approved(secret) => RegisterResultView::Approved(secret@),
            RegisterResult::Rejected => RegisterResultView::Rejected,
            RegisterResult::AlreadyPending => RegisterResultView::AlreadyPending,
            RegisterResult::NewPending(request) => RegisterResultView::NewPending(request@),
        }
    }
}

impl Clone for RegistrationRequest {
    fn clone(&self) -> (res: Self)
        ensures
            res@ == self@,
    {
        RegistrationRequest {
            id: self.id,
            tg_user_id: self.tg_user_id,
            tg_username: clone_opt_text(&self.tg_username),
            tg_display_name: clone_opt_text(&self.tg_display_name),
            status: self.status,
            telemt_username: clone_opt_text(&self.telemt_username),
            secret: clone_opt_text(&self.secret),
            created_at: self.created_at,
            decided_at: self.decided_at,
            active: self.active,
        }
    }
}

impl InviteToken {
    /// Why this token cannot be redeemed at `now`, if it cannot.
    pub fn refusal(&self, now: i64) -> (res: Option<TokenError>)
        ensures
            res == token_refusal(self@, now),
    {
        if now > self.expires_at {
            return Some(TokenError::Expired);
        }
        let left = match self.max_usage {
            Some(m) => self.usage_count < m,
            None => self.usage_count < i64::MAX,
        };
        if left {
            None
        } else {
            Some(TokenError::Exhausted)
        }
    }
}

impl Clone for InviteToken {
    fn clone(&self) -> (res: Self)
        ensures
            res@ == self@,
    {
        InviteToken {
            token: self.token.clone(),
            auto_approve: self.auto_approve,
            max_usage: self.max_usage,
            usage_count: self.usage_count,
            expires_at: self.expires_at,
            created_by: self.created_by,
            created_at: self.created_at,
        }
    }
}

/// The rows of a `Db`, oldest first.
pub ghost struct DbView {
    pub requests: Seq<RequestView>,
    pub tokens: Seq<TokenView>,
}

/// A row's own consistency: a secret and a proxy username are recorded for
/// an approved request and for no other, a decision time for a decided
/// request and for no other, and a request that still waits is in use.
pub open spec fn request_wf(r: RequestView) -> bool {
    &&& r.status == RequestStatus::Approved <==> r.secret is Some
    &&& r.status == RequestStatus::Approved <==> r.telemt_username is Some
    &&& r.status == RequestStatus::Pending <==> r.decided_at is None
    &&& r.status == RequestStatus::Pending ==> r.active
}

/// A token was never used more often than it allows.
pub open spec fn token_wf(t: TokenView) -> bool {
    &&& 0 <= t.usage_count
    &&& t.max_usage matches Some(m) ==> t.usage_count <= m
}

/// What holds of every `Db`: request ids count up from 1 in the order of the
/// rows, each row is consistent, no user has two active rows, and no two
/// tokens share a name.
pub open spec fn db_wf(v: DbView) -> bool {
    &&& forall|i: int|
        0 <= i < v.requests.len() ==> (#[trigger] v.requests[i]).id == i + 1 && request_wf(
            v.requests[i],
        )
    &&& forall|i: int, j: int|
        0 <= i < j < v.requests.len() && (#[trigger] v.requests[i]).active
            && (#[trigger] v.requests[j]).active ==> v.requests[i].tg_user_id
            != v.requests[j].tg_user_id
    &&& forall|i: int| 0 <= i < v.tokens.len() ==> token_wf(#[trigger] v.tokens[i])
    &&& forall|i: int, j: int|
        0 <= i < j < v.tokens.len() ==> (#[trigger] v.tokens[i]).token
            != (#[trigger] v.tokens[j]).token
}

/// Whether row `i` is the active row of `user`.
pub open spec fn is_active_row(v: DbView, i: int, user: i64) -> bool {
    0 <= i < v.requests.len() && v.requests[i].active && v.requests[i].tg_user_id == user
}

/// The active row of `user`, if the user has one.
pub open spec fn active_row(v: DbView, user: i64) -> Option<int> {
    if exists|i: int| is_active_row(v, i, user) {
        Some(choose|i: int| is_active_row(v, i, user))
    } else {
        None
    }
}

/// The row of the request with this id, if it still waits.
pub open spec fn pending_row(v: DbView, request_id: i64) -> Option<int> {
    let i = request_id - 1;
    if 0 <= i < v.requests.len() && v.requests[i].status == RequestStatus::Pending {
        Some(i)
    } else {
        None
    }
}

/// Whether row `i` holds the token named `token`.
pub open spec fn is_token_row(v: DbView, i: int, token: Seq<char>) -> bool {
    0 <= i < v.tokens.len() && v.tokens[i].token == token
}

/// The row of the token named `token`, if there is one.
pub open spec fn token_row(v: DbView, token: Seq<char>) -> Option<int> {
    if exists|i: int| is_token_row(v, i, token) {
        Some(choose|i: int| is_token_row(v, i, token))
    } else {
        None
    }
}

/// The request that a first registration opens.
pub open spec fn new_request(
    v: DbView,
    user: i64,
    tg_username: Option<Seq<char>>,
    now: i64,
) -> RequestView {
    RequestView {
        id: (v.requests.len() + 1) as i64,
        tg_user_id: user,
        tg_username: tg_username,
        tg_display_name: None,
        status: RequestStatus::Pending,
        telemt_username: None,
        secret: None,
        created_at: now,
        decided_at: None,
        active: true,
    }
}

/// A request once it is approved with this proxy username and secret.
pub open spec fn approved_request(
    r: RequestView,
    telemt_username: Seq<char>,
    secret: Seq<char>,
    now: i64,
) -> RequestView {
    RequestView {
        status: RequestStatus::Approved,
        telemt_username: Some(telemt_username),
        secret: Some(secret),
        decided_at: Some(now),
        ..r
    }
}

/// A request once it is rejected.
pub open spec fn rejected_request(r: RequestView, now: i64) -> RequestView {
    RequestView {
        status: RequestStatus::Rejected,
        telemt_username: None,
        secret: None,
        decided_at: Some(now),
        ..r
    }
}

/// What `register_or_get` answers.
pub open spec fn register_result(
    v: DbView,
    user: i64,
    tg_username: Option<Seq<char>>,
    now: i64,
) -> RegisterResultView {
    match active_row(v, user) {
        Some(i) => match v.requests[i].status {
            RequestStatus::Approved => RegisterResultView::Approved(v.requests[i].secret->0),
            RequestStatus::Rejected => RegisterResultView::Rejected,
            RequestStatus::Pending => RegisterResultView::AlreadyPending,
        },
        None => RegisterResultView::NewPending(new_request(v, user, tg_username, now)),
    }
}

/// The rows after `register_or_get`: a new pending row for a user without
/// an active row, and no change for any other.
pub open spec fn register_state(
    v: DbView,
    user: i64,
    tg_username: Option<Seq<char>>,
    now: i64,
) -> DbView {
    match active_row(v, user) {
        Some(_) => v,
        None => DbView { requests: v.requests.push(new_request(v, user, tg_username, now)), ..v },
    }
}

/// What `approve` answers: the request as approved, where it was pending.
pub open spec fn approve_result(
    v: DbView,
    request_id: i64,
    telemt_username: Seq<char>,
    secret: Seq<char>,
    now: i64,
) -> Option<RequestView> {
    match pending_row(v, request_id) {
        Some(i) => Some(approved_request(v.requests[i], telemt_username, secret, now)),
        None => None,
    }
}

/// The rows after `approve`.
pub open spec fn approve_state(
    v: DbView,
    request_id: i64,
    telemt_username: Seq<char>,
    secret: Seq<char>,
    now: i64,
) -> DbView {
    match pending_row(v, request_id) {
        Some(i) => DbView {
            requests: v.requests.update(
                i,
                approved_request(v.requests[i], telemt_username, secret, now),
            ),
            ..v
        },
        None => v,
    }
}

/// What `reject` answers: the request as rejected, where it was pending.
pub open spec fn reject_result(v: DbView, request_id: i64, now: i64) -> Option<RequestView> {
    match pending_row(v, request_id) {
        Some(i) => Some(rejected_request(v.requests[i], now)),
        None => None,
    }
}

/// The rows after `reject`.
pub open spec fn reject_state(v: DbView, request_id: i64, now: i64) -> DbView {
    match pending_row(v, request_id) {
        Some(i) => DbView {
            requests: v.requests.update(i, rejected_request(v.requests[i], now)),
            ..v
        },
        None => v,
    }
}

/// The row that `set_approved` leaves for `user`.
pub open spec fn set_approved_result(
    v: DbView,
    user: i64,
    telemt_username: Seq<char>,
    secret: Seq<char>,
    now: i64,
) -> RequestView {
    match active_row(v, user) {
        Some(i) => approved_request(v.requests[i], telemt_username, secret, now),
        None => approved_request(new_request(v, user, None, now), telemt_username, secret, now),
    }
}

/// The rows after `set_approved`: the user's active row is approved whatever
/// it was, and a user without one gets an approved row.
pub open spec fn set_approved_state(
    v: DbView,
    user: i64,
    telemt_username: Seq<char>,
    secret: Seq<char>,
    now: i64,
) -> DbView {
    let row = set_approved_result(v, user, telemt_username, secret, now);
    match active_row(v, user) {
        Some(i) => DbView { requests: v.requests.update(i, row), ..v },
        None => DbView { requests: v.requests.push(row), ..v },
    }
}

/// A row once it is taken out of use. A decided row keeps what it says; a
/// request that still waited is closed as rejected, for it can no longer be
/// approved.
pub open spec fn deactivated_request(r: RequestView, now: i64) -> RequestView {
    if r.status == RequestStatus::Pending {
        RequestView { active: false, ..rejected_request(r, now) }
    } else {
        RequestView { active: false, ..r }
    }
}

/// The rows after `deactivate_user`: the user's active row, if any, is
/// taken out of use.
pub open spec fn deactivate_state(v: DbView, user: i64, now: i64) -> DbView {
    match active_row(v, user) {
        Some(i) => DbView {
            requests: v.requests.update(i, deactivated_request(v.requests[i], now)),
            ..v
        },
        None => v,
    }
}

/// The proxy username and secret of `user`, where the user's active row is
/// approved.
pub open spec fn approved_credentials(v: DbView, user: i64) -> Option<(Seq<char>, Seq<char>)> {
    match active_row(v, user) {
        Some(i) => if v.requests[i].status == RequestStatus::Approved {
            Some((v.requests[i].telemt_username->0, v.requests[i].secret->0))
        } else {
            None
        },
        None => None,
    }
}

/// Whether a token may be used once more. A count that has reached the
/// largest `i64` cannot grow, so it counts as used up.
pub open spec fn has_usage_left(t: TokenView) -> bool {
    match t.max_usage {
        Some(m) => t.usage_count < m,
        None => t.usage_count < i64::MAX,
    }
}

/// Why a token cannot be redeemed at `now`, if it cannot: its time is over
/// once `now` is past `expires_at`.
pub open spec fn token_refusal(t: TokenView, now: i64) -> Option<TokenError> {
    if now > t.expires_at {
        Some(TokenError::Expired)
    } else if !has_usage_left(t) {
        Some(TokenError::Exhausted)
    } else {
        None
    }
}

/// What `redeem_invite_token` answers: the token as it stands after this
/// use, or why it cannot be used.
pub open spec fn redeem_result(v: DbView, token: Seq<char>, now: i64) -> Result<
    TokenView,
    TokenError,
> {
    match token_row(v, token) {
        Some(i) => match token_refusal(v.tokens[i], now) {
            Some(e) => Err(e),
            None => Ok(
                TokenView { usage_count: (v.tokens[i].usage_count + 1) as i64, ..v.tokens[i] },
            ),
        },
        None => Err(TokenError::Unknown),
    }
}

/// The rows after `redeem_invite_token`: one use more on a token that could
/// be redeemed, and no change otherwise.
pub open spec fn redeem_state(v: DbView, token: Seq<char>, now: i64) -> DbView {
    match redeem_result(v, token, now) {
        Ok(t) => DbView { tokens: v.tokens.update(token_row(v, token)->0, t), ..v },
        Err(_) => v,
    }
}

/// Whether a token of these terms can be filed: its name is new and its
/// limit, if it has one, is not negative.
pub open spec fn token_admissible(v: DbView, token: Seq<char>, max_usage: Option<i64>) -> bool {
    &&& token_row(v, token) is None
    &&& max_usage matches Some(m) ==> m >= 0
}

/// A token as it is filed: unused.
pub open spec fn new_token(
    token: Seq<char>,
    auto_approve: bool,
    max_usage: Option<i64>,
    expires_at: i64,
    created_by: Option<i64>,
    now: i64,
) -> TokenView {
    TokenView {
        token: token,
        auto_approve: auto_approve,
        max_usage: max_usage,
        usage_count: 0,
        expires_at: expires_at,
        created_by: created_by,
        created_at: now,
    }
}

/// No user has two active rows, so a row that is a user's active row is the
/// one `active_row` names.
pub proof fn lemma_active_row_unique(v: DbView, i: int, user: i64)
    requires
        db_wf(v),
        is_active_row(v, i, user),
    ensures
        active_row(v, user) == Some(i),
{
    let j = choose|j: int| is_active_row(v, j, user);
    if i < j {
        assert(v.requests[i].tg_user_id != v.requests[j].tg_user_id);
    } else if j < i {
        assert(v.requests[j].tg_user_id != v.requests[i].tg_user_id);
    }
}

/// No two tokens share a name, so a row that holds a name is the one
/// `token_row` names.
pub proof fn lemma_token_row_unique(v: DbView, i: int, token: Seq<char>)
    requires
        db_wf(v),
        is_token_row(v, i, token),
    ensures
        token_row(v, token) == Some(i),
{
    let j = choose|j: int| is_token_row(v, j, token);
    if i < j {
        assert(v.tokens[i].token != v.tokens[j].token);
    } else if j < i {
        assert(v.tokens[j].token != v.tokens[i].token);
    }
}

/// The rows with one token more, filed last.
pub open spec fn add_token_state(v: DbView, t: TokenView) -> DbView {
    DbView { tokens: v.tokens.push(t), ..v }
}

/// Request ids are `i64`, so a store never holds more rows than that.
pub proof fn lemma_request_count_fits(v: DbView)
    requires
        db_wf(v),
    ensures
        v.requests.len() <= i64::MAX,
{
    if v.requests.len() > 0 {
        assert(v.requests[v.requests.len() - 1].id == v.requests.len());
    }
}

/// Replacing a row by one with the same id, user and activity, itself
/// consistent, keeps the store well-formed.
pub proof fn lemma_update_row_keeps_wf(v: DbView, i: int, row: RequestView)
    requires
        db_wf(v),
        0 <= i < v.requests.len(),
        request_wf(row),
        row.id == v.requests[i].id,
        row.tg_user_id == v.requests[i].tg_user_id,
        row.active ==> v.requests[i].active,
    ensures
        db_wf(DbView { requests: v.requests.update(i, row), ..v }),
{
    let w = DbView { requests: v.requests.update(i, row), ..v };
    assert forall|a: int, b: int|
        0 <= a < b < w.requests.len() && (#[trigger] w.requests[a]).active
            && (#[trigger] w.requests[b]).active implies w.requests[a].tg_user_id
        != w.requests[b].tg_user_id by {
        assert(v.requests[a].active && v.requests[b].active);
        assert(v.requests[a].tg_user_id != v.requests[b].tg_user_id);
    }
}

/// Adding a consistent row with the next id, for a user without an active
/// row, keeps the store well-formed.
pub proof fn lemma_push_row_keeps_wf(v: DbView, row: RequestView)
    requires
        db_wf(v),
        v.requests.len() < i64::MAX,
        request_wf(row),
        row.id == v.requests.len() + 1,
        active_row(v, row.tg_user_id) is None,
    ensures
        db_wf(DbView { requests: v.requests.push(row), ..v }),
{
    let w = DbView { requests: v.requests.push(row), ..v };
    assert forall|a: int, b: int|
        0 <= a < b < w.requests.len() && (#[trigger] w.requests[a]).active
            && (#[trigger] w.requests[b]).active implies w.requests[a].tg_user_id
        != w.requests[b].tg_user_id by {
        if b == v.requests.len() {
            assert(v.requests[a] == w.requests[a]);
            if w.requests[a].tg_user_id == row.tg_user_id {
                assert(is_active_row(v, a, row.tg_user_id));
            }
        } else {
            assert(v.requests[a].active && v.requests[b].active);
        }
    }
}

pub proof fn lemma_register_keeps_wf(
    v: DbView,
    user: i64,
    tg_username: Option<Seq<char>>,
    now: i64,
)
    requires
        db_wf(v),
        v.requests.len() < i64::MAX,
    ensures
        db_wf(register_state(v, user, tg_username, now)),
{
    if active_row(v, user) is None {
        lemma_push_row_keeps_wf(v, new_request(v, user, tg_username, now));
    }
}

pub proof fn lemma_approve_keeps_wf(
    v: DbView,
    request_id: i64,
    telemt_username: Seq<char>,
    secret: Seq<char>,
    now: i64,
)
    requires
        db_wf(v),
    ensures
        db_wf(approve_state(v, request_id, telemt_username, secret, now)),
{
    if let Some(i) = pending_row(v, request_id) {
        lemma_update_row_keeps_wf(
            v,
            i,
            approved_request(v.requests[i], telemt_username, secret, now),
        );
    }
}

pub proof fn lemma_reject_keeps_wf(v: DbView, request_id: i64, now: i64)
    requires
        db_wf(v),
    ensures
        db_wf(reject_state(v, request_id, now)),
{
    if let Some(i) = pending_row(v, request_id) {
        lemma_update_row_keeps_wf(v, i, rejected_request(v.requests[i], now));
    }
}

pub proof fn lemma_set_approved_keeps_wf(
    v: DbView,
    user: i64,
    telemt_username: Seq<char>,
    secret: Seq<char>,
    now: i64,
)
    requires
        db_wf(v),
        v.requests.len() < i64::MAX,
    ensures
        db_wf(set_approved_state(v, user, telemt_username, secret, now)),
{
    let row = set_approved_result(v, user, telemt_username, secret, now);
    match active_row(v, user) {
        Some(i) => {
            lemma_update_row_keeps_wf(v, i, row);
        },
        None => {
            lemma_push_row_keeps_wf(v, row);
        },
    }
}

pub proof fn lemma_deactivate_keeps_wf(v: DbView, user: i64, now: i64)
    requires
        db_wf(v),
    ensures
        db_wf(deactivate_state(v, user, now)),
{
    if let Some(i) = active_row(v, user) {
        lemma_update_row_keeps_wf(v, i, deactivated_request(v.requests[i], now));
    }
}

/// No user has two requests that wait.
pub proof fn lemma_one_pending_per_user(v: DbView, i: int, j: int)
    requires
        db_wf(v),
        0 <= i < v.requests.len(),
        0 <= j < v.requests.len(),
        i != j,
        v.requests[i].status == RequestStatus::Pending,
        v.requests[j].status == RequestStatus::Pending,
    ensures
        v.requests[i].tg_user_id != v.requests[j].tg_user_id,
{
    assert(request_wf(v.requests[i]) && request_wf(v.requests[j]));
    if i < j {
        assert(v.requests[i].active && v.requests[j].active);
    } else {
        assert(v.requests[j].active && v.requests[i].active);
    }
}

pub proof fn lemma_redeem_keeps_wf(v: DbView, token: Seq<char>, now: i64)
    requires
        db_wf(v),
    ensures
        db_wf(redeem_state(v, token, now)),
{
    let w = redeem_state(v, token, now);
    if let Ok(t) = redeem_result(v, token, now) {
        let k = token_row(v, token)->0;
        assert(is_token_row(v, k, token));
        assert forall|a: int, b: int| 0 <= a < b < w.tokens.len() implies (
        #[trigger] w.tokens[a]).token != (#[trigger] w.tokens[b]).token by {
            assert(w.tokens[a].token == v.tokens[a].token);
            assert(w.tokens[b].token == v.tokens[b].token);
        }
        assert forall|a: int| 0 <= a < w.tokens.len() implies token_wf(#[trigger] w.tokens[a]) by {
            if a != k {
                assert(w.tokens[a] == v.tokens[a]);
            } else {
                assert(token_wf(v.tokens[k]));
            }
        }
    }
}

pub proof fn lemma_add_token_keeps_wf(v: DbView, t: TokenView)
    requires
        db_wf(v),
        token_wf(t),
        token_row(v, t.token) is None,
    ensures
        db_wf(add_token_state(v, t)),
{
    let w = add_token_state(v, t);
    assert forall|a: int, b: int| 0 <= a < b < w.tokens.len() implies (#[trigger] w.tokens[a]).token
        != (#[trigger] w.tokens[b]).token by {
        if b == v.tokens.len() {
            assert(w.tokens[a] == v.tokens[a]);
            if w.tokens[a].token == t.token {
                assert(is_token_row(v, a, t.token));
            }
        } else {
            assert(w.tokens[a] == v.tokens[a] && w.tokens[b] == v.tokens[b]);
        }
    }
}

/// The view of an optional request.
pub open spec fn opt_request(r: Option<RegistrationRequest>) -> Option<RequestView> {
    match r {
        Some(request) => Some(request@),
        None => None,
    }
}

/// The view of an optional token.
pub open spec fn opt_token(t: Option<InviteToken>) -> Option<TokenView> {
    match t {
        Some(token) => Some(token@),
        None => None,
    }
}

/// The view of what redeeming a token gives.
pub open spec fn redeemed_view(r: Result<InviteToken, TokenError>) -> Result<TokenView, TokenError> {
    match r {
        Ok(token) => Ok(token@),
        Err(e) => Err(e),
    }
}

/// The store of requests and tokens.
#[derive(Debug)]
pub struct Db {
    requests: Vec<RegistrationRequest>,
    tokens: Vec<InviteToken>,
}

impl View for Db {
    type V = DbView;

    closed spec fn view(&self) -> DbView {
        DbView {
            requests: Seq::new(self.requests@.len(), |i: int| self.requests@[i]@),
            tokens: Seq::new(self.tokens@.len(), |i: int| self.tokens@[i]@),
        }
    }
}

impl Db {
    /// Whether the rows are as `db_wf` asks. Every operation keeps it.
    pub open spec fn wf(&self) -> bool {
        db_wf(self@)
    }

    /// A store without rows.
    pub fn new() -> (db: Db)
        ensures
            db.wf(),
            db@.requests.len() == 0,
            db@.tokens.len() == 0,
    {
        Db { requests: Vec::new(), tokens: Vec::new() }
    }

    /// How many requests were ever filed.
    pub fn request_count(&self) -> (n: usize)
        ensures
            n == self@.requests.len(),
    {
        self.requests.len()
    }

    /// The index of the active row of `user`.
    fn find_active(&self, user: i64) -> (res: Option<usize>)
        requires
            self.wf(),
        ensures
            match res {
                Some(i) => active_row(self@, user) == Some(i as int),
                None => active_row(self@, user) is None,
            },
    {
        let mut i: usize = 0;
        while i < self.requests.len()
            invariant
                self.wf(),
                i <= self.requests.len(),
                forall|k: int| 0 <= k < i ==> !is_active_row(self@, k, user),
            decreases self.requests.len() - i,
        {
            if self.requests[i].active && self.requests[i].tg_user_id == user {
                proof {
                    assert(is_active_row(self@, i as int, user));
                    lemma_active_row_unique(self@, i as int, user);
                }
                return Some(i);
            }
            i += 1;
        }
        None
    }

    /// The index of the row with this id, if it still waits.
    fn find_pending(&self, request_id: i64) -> (res: Option<usize>)
        requires
            self.wf(),
        ensures
            match res {
                Some(i) => pending_row(self@, request_id) == Some(i as int),
                None => pending_row(self@, request_id) is None,
            },
    {
        proof {
            lemma_request_count_fits(self@);
        }
        if request_id < 1 {
            return None;
        }
        let len = self.requests.len();
        if request_id - 1 >= len as i64 {
            return None;
        }
        let i = (request_id - 1) as usize;
        match self.requests[i].status {
            RequestStatus::Pending => Some(i),
            _ => None,
        }
    }

    /// The index of the token named `token`.
    fn find_token(&self, token: &str) -> (res: Option<usize>)
        requires
            self.wf(),
        ensures
            match res {
                Some(i) => token_row(self@, token@) == Some(i as int),
                None => token_row(self@, token@) is None,
            },
    {
        let mut i: usize = 0;
        while i < self.tokens.len()
            invariant
                self.wf(),
                i <= self.tokens.len(),
                forall|k: int| 0 <= k < i ==> !is_token_row(self@, k, token@),
            decreases self.tokens.len() - i,
        {
            if same_text(self.tokens[i].token.as_str(), token) {
                proof {
                    assert(is_token_row(self@, i as int, token@));
                    lemma_token_row_unique(self@, i as int, token@);
                }
                return Some(i);
            }
            i += 1;
        }
        None
    }

    /// Looks the user up and, where the user is unknown, opens a request.
    ///
    /// A user with access gets the secret that was granted; a user who was
    /// turned down or whose request still waits is told so, and nothing
    /// changes. For any other user a pending request is filed under the next
    /// id and handed back.
    pub fn register_or_get(&mut self, tg_user_id: i64, tg_username: Option<&str>, now: i64) -> (res:
        RegisterResult)
        requires
            old(self).wf(),
            old(self)@.requests.len() < i64::MAX,
        ensures
            final(self).wf(),
            final(self)@ == register_state(old(self)@, tg_user_id, opt_str(tg_username), now),
            res@ == register_result(old(self)@, tg_user_id, opt_str(tg_username), now),
    {
        proof {
            lemma_register_keeps_wf(self@, tg_user_id, opt_str(tg_username), now);
        }
        match self.find_active(tg_user_id) {
            Some(i) => {
                let row = &self.requests[i];
                assert(request_wf(self@.requests[i as int]));
                match row.status {
                    RequestStatus::Approved => match &row.secret {
                        Some(secret) => RegisterResult::Approved(secret.clone()),
                        None => RegisterResult::Rejected,
                    },
                    RequestStatus::Rejected => RegisterResult::Rejected,
                    RequestStatus::Pending => RegisterResult::AlreadyPending,
                }
            },
            None => {
                let request = RegistrationRequest {
                    id: self.requests.len() as i64 + 1,
                    tg_user_id: tg_user_id,
                    tg_username: own_opt_text(tg_username),
                    tg_display_name: None,
                    status: RequestStatus::Pending,
                    telemt_username: None,
                    secret: None,
                    created_at: now,
                    decided_at: None,
                    active: true,
                };
                let filed = request.clone();
                self.requests.push(request);
                assert(self@.requests =~= old(self)@.requests.push(filed@));
                assert(self@.tokens =~= old(self)@.tokens);
                RegisterResult::NewPending(filed)
            },
        }
    }

    /// The active row of this user, if the user has one.
    pub fn get_active(&self, tg_user_id: i64) -> (res: Option<RegistrationRequest>)
        requires
            self.wf(),
        ensures
            opt_request(res) == match active_row(self@, tg_user_id) {
                Some(i) => Some(self@.requests[i]),
                None => None,
            },
    {
        match self.find_active(tg_user_id) {
            Some(i) => Some(self.requests[i].clone()),
            None => None,
        }
    }

    /// The request with this id, where it is still pending.
    pub fn get_pending_by_id(&self, request_id: i64) -> (res: Option<RegistrationRequest>)
        requires
            self.wf(),
        ensures
            opt_request(res) == match pending_row(self@, request_id) {
                Some(i) => Some(self@.requests[i]),
                None => None,
            },
    {
        match self.find_pending(request_id) {
            Some(i) => Some(self.requests[i].clone()),
            None => None,
        }
    }

    /// The request with this id, whatever its state.
    pub fn get_request(&self, request_id: i64) -> (res: Option<RegistrationRequest>)
        requires
            self.wf(),
        ensures
            opt_request(res) == if 1 <= request_id <= self@.requests.len() {
                Some(self@.requests[request_id - 1])
            } else {
                None
            },
    {
        proof {
            lemma_request_count_fits(self@);
        }
        if request_id < 1 || request_id - 1 >= self.requests.len() as i64 {
            return None;
        }
        Some(self.requests[(request_id - 1) as usize].clone())
    }

    /// Approves the request with this id if it is still pending, and only
    /// then; the row then holds the proxy username and the secret. A request
    /// that is unknown or already decided gives `None` and changes nothing.
    pub fn approve(&mut self, request_id: i64, telemt_username: &str, secret: &str, now: i64) -> (res:
        Option<RegistrationRequest>)
        requires
            old(self).wf(),
        ensures
            final(self).wf(),
            final(self)@ == approve_state(old(self)@, request_id, telemt_username@, secret@, now),
            opt_request(res) == approve_result(
                old(self)@,
                request_id,
                telemt_username@,
                secret@,
                now,
            ),
    {
        proof {
            lemma_approve_keeps_wf(self@, request_id, telemt_username@, secret@, now);
        }
        match self.find_pending(request_id) {
            Some(i) => {
                let row = &self.requests[i];
                let approved = RegistrationRequest {
                    id: row.id,
                    tg_user_id: row.tg_user_id,
                    tg_username: clone_opt_text(&row.tg_username),
                    tg_display_name: clone_opt_text(&row.tg_display_name),
                    status: RequestStatus::Approved,
                    telemt_username: Some(telemt_username.to_owned()),
                    secret: Some(secret.to_owned()),
                    created_at: row.created_at,
                    decided_at: Some(now),
                    active: row.active,
                };
                let answer = approved.clone();
                self.requests.set(i, approved);
                assert(self@.requests =~= old(self)@.requests.update(i as int, answer@));
                assert(self@.tokens =~= old(self)@.tokens);
                Some(answer)
            },
            None => None,
        }
    }

    /// Rejects the request with this id if it is still pending, and only
    /// then. A request that is unknown or already decided gives `None` and
    /// changes nothing.
    pub fn reject(&mut self, request_id: i64, now: i64) -> (res: Option<RegistrationRequest>)
        requires
            old(self).wf(),
        ensures
            final(self).wf(),
            final(self)@ == reject_state(old(self)@, request_id, now),
            opt_request(res) == reject_result(old(self)@, request_id, now),
    {
        proof {
            lemma_reject_keeps_wf(self@, request_id, now);
        }
        match self.find_pending(request_id) {
            Some(i) => {
                let row = &self.requests[i];
                let rejected = RegistrationRequest {
                    id: row.id,
                    tg_user_id: row.tg_user_id,
                    tg_username: clone_opt_text(&row.tg_username),
                    tg_display_name: clone_opt_text(&row.tg_display_name),
                    status: RequestStatus::Rejected,
                    telemt_username: None,
                    secret: None,
                    created_at: row.created_at,
                    decided_at: Some(now),
                    active: row.active,
                };
                let answer = rejected.clone();
                self.requests.set(i, rejected);
                assert(self@.requests =~= old(self)@.requests.update(i as int, answer@));
                assert(self@.tokens =~= old(self)@.tokens);
                Some(answer)
            },
            None => None,
        }
    }

    /// Records `tg_user_id` as approved with this proxy username and secret,
    /// whatever the user's row said before; a user without an active row
    /// gets one. Hands back the row as it now stands.
    pub fn set_approved(&mut self, tg_user_id: i64, telemt_username: &str, secret: &str, now: i64) -> (res:
        RegistrationRequest)
        requires
            old(self).wf(),
            old(self)@.requests.len() < i64::MAX,
        ensures
            final(self).wf(),
            final(self)@ == set_approved_state(
                old(self)@,
                tg_user_id,
                telemt_username@,
                secret@,
                now,
            ),
            res@ == set_approved_result(old(self)@, tg_user_id, telemt_username@, secret@, now),
    {
        proof {
            lemma_set_approved_keeps_wf(self@, tg_user_id, telemt_username@, secret@, now);
        }
        match self.find_active(tg_user_id) {
            Some(i) => {
                let row = &self.requests[i];
                let approved = RegistrationRequest {
                    id: row.id,
                    tg_user_id: row.tg_user_id,
                    tg_username: clone_opt_text(&row.tg_username),
                    tg_display_name: clone_opt_text(&row.tg_display_name),
                    status: RequestStatus::Approved,
                    telemt_username: Some(telemt_username.to_owned()),
                    secret: Some(secret.to_owned()),
                    created_at: row.created_at,
                    decided_at: Some(now),
                    active: row.active,
                };
                let answer = approved.clone();
                self.requests.set(i, approved);
                assert(self@.requests =~= old(self)@.requests.update(i as int, answer@));
                assert(self@.tokens =~= old(self)@.tokens);
                answer
            },
            None => {
                let approved = RegistrationRequest {
                    id: self.requests.len() as i64 + 1,
                    tg_user_id: tg_user_id,
                    tg_username: None,
                    tg_display_name: None,
                    status: RequestStatus::Approved,
                    telemt_username: Some(telemt_username.to_owned()),
                    secret: Some(secret.to_owned()),
                    created_at: now,
                    decided_at: Some(now),
                    active: true,
                };
                let answer = approved.clone();
                self.requests.push(approved);
                assert(self@.requests =~= old(self)@.requests.push(answer@));
                assert(self@.tokens =~= old(self)@.tokens);
                answer
            },
        }
    }

    /// Takes the user's active row out of use and says whether there was
    /// one. A decided row stays on record as it was; a request that still
    /// waited is closed as rejected.
    pub fn deactivate_user(&mut self, tg_user_id: i64, now: i64) -> (res: bool)
        requires
            old(self).wf(),
        ensures
            final(self).wf(),
            final(self)@ == deactivate_state(old(self)@, tg_user_id, now),
            res == active_row(old(self)@, tg_user_id).is_some(),
    {
        proof {
            lemma_deactivate_keeps_wf(self@, tg_user_id, now);
        }
        match self.find_active(tg_user_id) {
            Some(i) => {
                let mut row = self.requests[i].clone();
                row.active = false;
                match row.status {
                    RequestStatus::Pending => {
                        row.status = RequestStatus::Rejected;
                        row.telemt_username = None;
                        row.secret = None;
                        row.decided_at = Some(now);
                    },
                    _ => {},
                }
                let ghost after = row@;
                self.requests.set(i, row);
                assert(self@.requests =~= old(self)@.requests.update(i as int, after));
                assert(self@.tokens =~= old(self)@.tokens);
                true
            },
            None => false,
        }
    }

    /// The proxy username and secret of a user who has access.
    pub fn get_approved(&self, tg_user_id: i64) -> (res: Option<(String, String)>)
        requires
            self.wf(),
        ensures
            match res {
                Some((name, secret)) => approved_credentials(self@, tg_user_id) == Some(
                    (name@, secret@),
                ),
                None => approved_credentials(self@, tg_user_id) is None,
            },
    {
        match self.find_active(tg_user_id) {
            Some(i) => {
                let row = &self.requests[i];
                assert(request_wf(self@.requests[i as int]));
                match (&row.telemt_username, &row.secret) {
                    (Some(name), Some(secret)) => Some((name.clone(), secret.clone())),
                    _ => None,
                }
            },
            None => None,
        }
    }

    /// Files a token, unused, and hands it back. A token whose name is
    /// taken, or whose limit is negative, is not filed.
    pub fn create_invite_token(
        &mut self,
        token: &str,
        auto_approve: bool,
        max_usage: Option<i64>,
        expires_at: i64,
        created_by: Option<i64>,
        now: i64,
    ) -> (res: Option<InviteToken>)
        requires
            old(self).wf(),
        ensures
            final(self).wf(),
            token_admissible(old(self)@, token@, max_usage) ==> opt_token(res) == Some(
                new_token(token@, auto_approve, max_usage, expires_at, created_by, now),
            ) && final(self)@ == add_token_state(old(self)@, res->0@),
            !token_admissible(old(self)@, token@, max_usage) ==> res is None && final(self)@ == old(
                self,
            )@,
    {
        let limit_ok = match max_usage {
            Some(m) => m >= 0,
            None => true,
        };
        if !limit_ok || self.find_token(token).is_some() {
            return None;
        }
        let filed = InviteToken {
            token: token.to_owned(),
            auto_approve: auto_approve,
            max_usage: max_usage,
            usage_count: 0,
            expires_at: expires_at,
            created_by: created_by,
            created_at: now,
        };
        let answer = filed.clone();
        proof {
            lemma_add_token_keeps_wf(self@, filed@);
        }
        self.tokens.push(filed);
        assert(self@.tokens =~= old(self)@.tokens.push(answer@));
        assert(self@.requests =~= old(self)@.requests);
        Some(answer)
    }

    /// The token named `token`, as it stands.
    pub fn get_invite_token(&self, token: &str) -> (res: Option<InviteToken>)
        requires
            self.wf(),
        ensures
            opt_token(res) == match token_row(self@, token@) {
                Some(i) => Some(self@.tokens[i]),
                None => None,
            },
    {
        match self.find_token(token) {
            Some(i) => Some(self.tokens[i].clone()),
            None => None,
        }
    }

    /// Uses the token once, if it can be used: the test and the count are
    /// one step. A token that is unknown, past its time or used up is
    /// refused, and its count stays as it was.
    pub fn redeem_invite_token(&mut self, token: &str, now: i64) -> (res: Result<
        InviteToken,
        TokenError,
    >)
        requires
            old(self).wf(),
        ensures
            final(self).wf(),
            final(self)@ == redeem_state(old(self)@, token@, now),
            redeemed_view(res) == redeem_result(old(self)@, token@, now),
    {
        proof {
            lemma_redeem_keeps_wf(self@, token@, now);
        }
        match self.find_token(token) {
            None => Err(TokenError::Unknown),
            Some(i) => {
                let row = &self.tokens[i];
                if let Some(e) = row.refusal(now) {
                    return Err(e);
                }
                let mut used = row.clone();
                used.usage_count = used.usage_count + 1;
                let answer = used.clone();
                self.tokens.set(i, used);
                assert(self@.tokens =~= old(self)@.tokens.update(i as int, answer@));
                assert(self@.requests =~= old(self)@.requests);
                Ok(answer)
            },
        }
    }
}

/// The rows of a store, as they are kept outside it.
pub open spec fn rows_view(requests: Vec<RegistrationRequest>, tokens: Vec<InviteToken>) -> DbView {
    DbView {
        requests: Seq::new(requests@.len(), |i: int| requests@[i]@),
        tokens: Seq::new(tokens@.len(), |i: int| tokens@[i]@),
    }
}

/// Whether a row is consistent in itself.
fn request_is_wf(r: &RegistrationRequest) -> (res: bool)
    ensures
        res == request_wf(r@),
{
    let approved = match r.status {
        RequestStatus::Approved => true,
        _ => false,
    };
    let pending = match r.status {
        RequestStatus::Pending => true,
        _ => false,
    };
    approved == r.secret.is_some() && approved == r.telemt_username.is_some() && pending
        == r.decided_at.is_none() && (!pending || r.active)
}

/// Whether a token was never used more often than it allows.
fn token_is_wf(t: &InviteToken) -> (res: bool)
    ensures
        res == token_wf(t@),
{
    if t.usage_count < 0 {
        return false;
    }
    match t.max_usage {
        Some(m) => t.usage_count <= m,
        None => true,
    }
}

/// Whether the ids count up from 1 and each row is consistent.
fn requests_are_numbered(requests: &Vec<RegistrationRequest>) -> (res: bool)
    ensures
        res == forall|i: int|
            0 <= i < requests@.len() ==> (#[trigger] requests@[i]@).id == i + 1 && request_wf(
                requests@[i]@,
            ),
{
    let mut i: usize = 0;
    while i < requests.len()
        invariant
            i <= requests.len(),
            forall|k: int|
                0 <= k < i ==> (#[trigger] requests@[k]@).id == k + 1 && request_wf(requests@[k]@),
        decreases requests.len() - i,
    {
        let row = &requests[i];
        let numbered = row.id >= 1 && (row.id - 1) as u64 == i as u64;
        if !numbered || !request_is_wf(row) {
            assert(!((#[trigger] requests@[i as int]@).id == i + 1 && request_wf(
                requests@[i as int]@,
            )));
            return false;
        }
        i += 1;
    }
    true
}

/// Whether no user has two active rows.
fn active_rows_are_unique(requests: &Vec<RegistrationRequest>) -> (res: bool)
    ensures
        res == forall|i: int, j: int|
            0 <= i < j < requests@.len() && (#[trigger] requests@[i]@).active
                && (#[trigger] requests@[j]@).active ==> requests@[i]@.tg_user_id
                != requests@[j]@.tg_user_id,
{
    let mut j: usize = 0;
    while j < requests.len()
        invariant
            j <= requests.len(),
            forall|a: int, b: int|
                0 <= a < b < j && (#[trigger] requests@[a]@).active && (
                #[trigger] requests@[b]@).active ==> requests@[a]@.tg_user_id
                    != requests@[b]@.tg_user_id,
        decreases requests.len() - j,
    {
        if requests[j].active {
            let mut i: usize = 0;
            while i < j
                invariant
                    i <= j < requests.len(),
                    requests@[j as int]@.active,
                    forall|a: int|
                        0 <= a < i && (#[trigger] requests@[a]@).active ==> requests@[a]@.tg_user_id
                            != requests@[j as int]@.tg_user_id,
                decreases j - i,
            {
                if requests[i].active && requests[i].tg_user_id == requests[j].tg_user_id {
                    assert(requests@[i as int]@.active && requests@[j as int]@.active);
                    return false;
                }
                i += 1;
            }
        }
        j += 1;
    }
    true
}

/// Whether each token is consistent and no two share a name.
fn tokens_are_wf(tokens: &Vec<InviteToken>) -> (res: bool)
    ensures
        res == ((forall|i: int| 0 <= i < tokens@.len() ==> token_wf(#[trigger] tokens@[i]@))
            && forall|i: int, j: int|
            0 <= i < j < tokens@.len() ==> (#[trigger] tokens@[i]@).token != (
            #[trigger] tokens@[j]@).token),
{
    let mut j: usize = 0;
    while j < tokens.len()
        invariant
            j <= tokens.len(),
            forall|a: int| 0 <= a < j ==> token_wf(#[trigger] tokens@[a]@),
            forall|a: int, b: int|
                0 <= a < b < j ==> (#[trigger] tokens@[a]@).token != (#[trigger] tokens@[b]@).token,
        decreases tokens.len() - j,
    {
        if !token_is_wf(&tokens[j]) {
            assert(!token_wf(tokens@[j as int]@));
            return false;
        }
        let mut i: usize = 0;
        while i < j
            invariant
                i <= j < tokens.len(),
                forall|a: int|
                    0 <= a < i ==> (#[trigger] tokens@[a]@).token != tokens@[j as int]@.token,
            decreases j - i,
        {
            if same_text(tokens[i].token.as_str(), tokens[j].token.as_str()) {
                assert((#[trigger] tokens@[i as int]@).token == (#[trigger] tokens@[j as int]@).token);
                return false;
            }
            i += 1;
        }
        j += 1;
    }
    true
}

impl Db {
    /// A store of these rows, if they are as `db_wf` asks: ids counting up
    /// from 1, each row consistent, no user with two active rows, each token
    /// within its limit, no two tokens of one name. Rows that are not are
    /// refused.
    pub fn from_rows(requests: Vec<RegistrationRequest>, tokens: Vec<InviteToken>) -> (res: Option<
        Db,
    >)
        ensures
            match res {
                Some(db) => db.wf() && db@ == rows_view(requests, tokens),
                None => !db_wf(rows_view(requests, tokens)),
            },
    {
        let ghost v = rows_view(requests, tokens);
        let numbered = requests_are_numbered(&requests);
        let unique = active_rows_are_unique(&requests);
        let tokens_ok = tokens_are_wf(&tokens);
        proof {
            assert forall|i: int| 0 <= i < v.requests.len() implies v.requests[i] == requests@[i]@ by {}
            assert forall|i: int| 0 <= i < v.tokens.len() implies v.tokens[i] == tokens@[i]@ by {}
        }
        if numbered && unique && tokens_ok {
            let db = Db { requests: requests, tokens: tokens };
            assert(db@.requests =~= v.requests);
            assert(db@.tokens =~= v.tokens);
            assert(db_wf(v));
            Some(db)
        } else {
            proof {
                if !numbered {
                    let i = choose|i: int|
                        0 <= i < requests@.len() && !((#[trigger] requests@[i]@).id == i + 1
                            && request_wf(requests@[i]@));
                    assert(v.requests[i] == requests@[i]@);
                } else if !unique {
                    let (i, j) = choose|i: int, j: int|
                        0 <= i < j < requests@.len() && (#[trigger] requests@[i]@).active && (
                        #[trigger] requests@[j]@).active && requests@[i]@.tg_user_id
                            == requests@[j]@.tg_user_id;
                    assert(v.requests[i] == requests@[i]@ && v.requests[j] == requests@[j]@);
                } else if exists|i: int| 0 <= i < tokens@.len() && !token_wf(#[trigger] tokens@[i]@) {
                    let i = choose|i: int| 0 <= i < tokens@.len() && !token_wf(#[trigger] tokens@[i]@);
                    assert(v.tokens[i] == tokens@[i]@);
                } else {
                    let (i, j) = choose|i: int, j: int|
                        0 <= i < j < tokens@.len() && (#[trigger] tokens@[i]@).token == (
                        #[trigger] tokens@[j]@).token;
                    assert(v.tokens[i] == tokens@[i]@ && v.tokens[j] == tokens@[j]@);
                }
            }
            None
        }
    }

    /// The requests, oldest first.
    pub fn requests(&self) -> (rows: Vec<RegistrationRequest>)
        ensures
            rows@.len() == self@.requests.len(),
            forall|i: int| 0 <= i < rows@.len() ==> rows@[i]@ == self@.requests[i],
    {
        let copy = self.clone();
        assert forall|i: int| 0 <= i < copy.requests@.len() implies copy.requests@[i]@
            == self@.requests[i] by {
            assert(copy@.requests[i] == self@.requests[i]);
        }
        copy.requests
    }

    /// The tokens, oldest first.
    pub fn tokens(&self) -> (rows: Vec<InviteToken>)
        ensures
            rows@.len() == self@.tokens.len(),
            forall|i: int| 0 <= i < rows@.len() ==> rows@[i]@ == self@.tokens[i],
    {
        let copy = self.clone();
        assert forall|i: int| 0 <= i < copy.tokens@.len() implies copy.tokens@[i]@
            == self@.tokens[i] by {
            assert(copy@.tokens[i] == self@.tokens[i]);
        }
        copy.tokens
    }
}

impl Clone for Db {
    fn clone(&self) -> (res: Self)
        ensures
            res@ == self@,
    {
        let mut requests: Vec<RegistrationRequest> = Vec::new();
        let mut i: usize = 0;
        while i < self.requests.len()
            invariant
                i <= self.requests.len(),
                requests@.len() == i,
                forall|k: int| 0 <= k < i ==> requests@[k]@ == self.requests@[k]@,
            decreases self.requests.len() - i,
        {
            requests.push(self.requests[i].clone());
            i += 1;
        }
        let mut tokens: Vec<InviteToken> = Vec::new();
        let mut j: usize = 0;
        while j < self.tokens.len()
            invariant
                j <= self.tokens.len(),
                tokens@.len() == j,
                forall|k: int| 0 <= k < j ==> tokens@[k]@ == self.tokens@[k]@,
            decreases self.tokens.len() - j,
        {
            tokens.push(self.tokens[j].clone());
            j += 1;
        }
        let res = Db { requests: requests, tokens: tokens };
        assert(res@.requests =~= self@.requests);
        assert(res@.tokens =~= self@.tokens);
        res
    }
}

} // verus!

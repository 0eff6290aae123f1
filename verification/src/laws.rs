//! What holds of the operations taken together: a decision is made once, a
//! token is never used more often than it allows, and the table of
//! credentials holds one secret for each user, the latest.

use crate::commands::callback_request_id_spec;
use crate::commands::CallbackError;
use crate::commands::lemma_callback_round_trip;
use crate::db::approve_result;
use crate::db::approve_state;
use crate::db::db_wf;
use crate::db::DbView;
use crate::db::has_usage_left;
use crate::db::is_token_row;
use crate::db::lemma_approve_keeps_wf;
use crate::db::lemma_redeem_keeps_wf;
use crate::db::lemma_token_row_unique;
use crate::db::pending_row;
use crate::db::redeem_result;
use crate::db::redeem_state;
use crate::db::reject_result;
use crate::db::reject_state;
use crate::db::RequestStatus;
use crate::db::token_row;
use crate::keyboards::approve_reject_spec;
use crate::provision::approve_db;
use crate::provision::approve_outcome;
use crate::provision::telemt_username_spec;
use crate::telemt_cfg::content_after;
use crate::telemt_cfg::remove_outcome;
use vstd::prelude::*;

verus! {

/// A request that was decided stays decided: approving or rejecting it
/// again gives nothing and changes nothing.
pub proof fn lemma_decided_request_is_final(
    v: DbView,
    request_id: i64,
    telemt_username: Seq<char>,
    secret: Seq<char>,
    now: i64,
)
    requires
        db_wf(v),
        1 <= request_id <= v.requests.len(),
        v.requests[request_id - 1].status != RequestStatus::Pending,
    ensures
        approve_result(v, request_id, telemt_username, secret, now) is None,
        approve_state(v, request_id, telemt_username, secret, now) == v,
        reject_result(v, request_id, now) is None,
        reject_state(v, request_id, now) == v,
{
}

/// Rejecting a request that was approved gives nothing: the request stays
/// approved, with the secret it was approved with.
pub proof fn lemma_reject_after_approve(
    v: DbView,
    request_id: i64,
    telemt_username: Seq<char>,
    secret: Seq<char>,
    approved_at: i64,
    now: i64,
)
    requires
        db_wf(v),
        approve_result(v, request_id, telemt_username, secret, approved_at) is Some,
    ensures
        ({
            let w = approve_state(v, request_id, telemt_username, secret, approved_at);
            &&& reject_result(w, request_id, now) is None
            &&& reject_state(w, request_id, now) == w
            &&& w.requests[request_id - 1].status == RequestStatus::Approved
            &&& w.requests[request_id - 1].secret == Some(secret)
        }),
{
}

/// Approving a request twice grants once. Where the first call did not
/// fail, the second gives `None` and leaves the record as the first left
/// it, whatever secret and configuration text it is given; and where the
/// first call granted, the request holds the first call's secret under the
/// user's proxy username.
pub proof fn lemma_approve_twice(
    v: DbView,
    first_content: Seq<char>,
    first_secret: Seq<char>,
    first_now: i64,
    second_content: Seq<char>,
    second_secret: Seq<char>,
    second_now: i64,
    request_id: i64,
)
    requires
        db_wf(v),
        approve_outcome(v, first_content, request_id, first_secret) is Ok,
    ensures
        ({
            let w = approve_db(v, first_content, request_id, first_secret, first_now);
            &&& db_wf(w)
            &&& approve_outcome(w, second_content, request_id, second_secret) == Ok::<
                Option<crate::provision::GrantView>,
                crate::telemt_cfg::ConfigErrorKind,
            >(None)
            &&& approve_db(w, second_content, request_id, second_secret, second_now) == w
            &&& approve_outcome(v, first_content, request_id, first_secret) matches Ok(Some(grant))
                ==> {
                &&& w.requests[request_id - 1].status == RequestStatus::Approved
                &&& w.requests[request_id - 1].secret == Some(first_secret)
                &&& w.requests[request_id - 1].telemt_username == Some(
                    telemt_username_spec(v.requests[request_id - 1].tg_user_id),
                )
            }
        }),
{
    let name = match pending_row(v, request_id) {
        Some(i) => telemt_username_spec(v.requests[i].tg_user_id),
        None => Seq::<char>::empty(),
    };
    lemma_approve_keeps_wf(v, request_id, name, first_secret, first_now);
}

/// The table of credentials holds one secret for each user, the latest:
/// after a user's entry is set, the table holds that secret under that
/// name and every other entry as before; and setting it again replaces the
/// secret and adds nothing.
pub proof fn lemma_latest_secret_stays(
    entries: Map<Seq<char>, Option<Seq<char>>>,
    username: Seq<char>,
    first_secret: Seq<char>,
    second_secret: Seq<char>,
)
    ensures
        entries.insert(username, Some(first_secret))[username] == Some(first_secret),
        entries.insert(username, Some(first_secret)).dom() == entries.dom().insert(username),
        forall|other: Seq<char>|
            other != username && entries.dom().contains(other) ==> #[trigger] entries.insert(
                username,
                Some(first_secret),
            )[other] == entries[other],
        entries.insert(username, Some(first_secret)).insert(username, Some(second_secret))
            == entries.insert(username, Some(second_secret)),
{
    assert(entries.insert(username, Some(first_secret)).dom() =~= entries.dom().insert(username));
    assert(entries.insert(username, Some(first_secret)).insert(username, Some(second_secret))
        =~= entries.insert(username, Some(second_secret)));
}

/// Removing a user from the table of credentials removes that entry and no
/// other; removing a user that the table does not hold changes nothing.
pub proof fn lemma_remove_only_that_user(
    entries: Map<Seq<char>, Option<Seq<char>>>,
    username: Seq<char>,
)
    ensures
        !entries.remove(username).dom().contains(username),
        forall|other: Seq<char>|
            other != username && entries.dom().contains(other) ==> entries.remove(
                username,
            ).dom().contains(other) && #[trigger] entries.remove(username)[other]
                == entries[other],
        !entries.dom().contains(username) ==> entries.remove(username) == entries,
{
    if !entries.dom().contains(username) {
        assert(entries.remove(username) =~= entries);
    }
}

/// Removing a user that the table does not hold leaves the file as it is:
/// the answer is that the user was not there, and no new text is made.
pub proof fn lemma_absent_user_leaves_file(content: Seq<char>, username: Seq<char>)
    requires
        remove_outcome(content, username) is Ok,
        !(remove_outcome(content, username)->Ok_0).existed,
    ensures
        (remove_outcome(content, username)->Ok_0).new_content is None,
        content_after(content, (remove_outcome(content, username)->Ok_0).new_content) == content,
{
}

/// The record after a token was redeemed at each of `times`, one call after
/// the other.
pub open spec fn redeem_all(v: DbView, token: Seq<char>, times: Seq<i64>) -> DbView
    decreases times.len(),
{
    if times.len() == 0 {
        v
    } else {
        redeem_all(redeem_state(v, token, times[0]), token, times.skip(1))
    }
}

/// How many of those calls succeeded.
pub open spec fn redeemed_count(v: DbView, token: Seq<char>, times: Seq<i64>) -> nat
    decreases times.len(),
{
    if times.len() == 0 {
        0
    } else {
        let first: nat = if redeem_result(v, token, times[0]) is Ok {
            1
        } else {
            0
        };
        first + redeemed_count(redeem_state(v, token, times[0]), token, times.skip(1))
    }
}

/// Whether each of `times` is within a token's time.
pub open spec fn all_in_time(times: Seq<i64>, expires_at: i64) -> bool {
    forall|i: int| 0 <= i < times.len() ==> #[trigger] times[i] <= expires_at
}

/// The smaller of two numbers.
pub open spec fn smaller(a: int, b: int) -> int {
    if a <= b {
        a
    } else {
        b
    }
}

/// However often a token is redeemed, its count grows by one for each call
/// that succeeds and by nothing else, and never passes its limit. Calls made
/// while the token's time lasts succeed until the limit is reached and fail
/// from then on.
///
/// A `Db` is changed through `&mut` only, so calls that race for one token
/// reach it in some order, one after the other: `times` is that order.
pub proof fn lemma_token_usage_bound(v: DbView, token: Seq<char>, times: Seq<i64>)
    requires
        db_wf(v),
        token_row(v, token) is Some,
    ensures
        ({
            let k = token_row(v, token)->0;
            let w = redeem_all(v, token, times);
            let used = redeemed_count(v, token, times);
            &&& db_wf(w)
            &&& w.requests == v.requests
            &&& w.tokens.len() == v.tokens.len()
            &&& w.tokens[k].token == token
            &&& w.tokens[k].max_usage == v.tokens[k].max_usage
            &&& w.tokens[k].usage_count == v.tokens[k].usage_count + used
            &&& v.tokens[k].max_usage is Some ==> w.tokens[k].usage_count
                <= v.tokens[k].max_usage->0
            &&& (v.tokens[k].max_usage is Some && all_in_time(times, v.tokens[k].expires_at))
                ==> used == smaller(
                times.len() as int,
                v.tokens[k].max_usage->0 - v.tokens[k].usage_count,
            )
        }),
    decreases times.len(),
{
    let k = token_row(v, token)->0;
    assert(is_token_row(v, k, token));
    assert(crate::db::token_wf(v.tokens[k]));
    if times.len() > 0 {
        let v1 = redeem_state(v, token, times[0]);
        lemma_redeem_keeps_wf(v, token, times[0]);
        assert(is_token_row(v1, k, token));
        lemma_token_row_unique(v1, k, token);
        lemma_token_usage_bound(v1, token, times.skip(1));
        if v.tokens[k].max_usage is Some && all_in_time(times, v.tokens[k].expires_at) {
            assert(times[0] <= v.tokens[k].expires_at);
            assert forall|i: int| 0 <= i < times.skip(1).len() implies #[trigger] times.skip(1)[i]
                <= v1.tokens[k].expires_at by {
                assert(times[i + 1] <= v.tokens[k].expires_at);
            }
        }
    }
}

/// A token that may be used once is used once: of any number of calls made
/// while its time lasts, the first succeeds and no other, and its count
/// ends at 1.
pub proof fn lemma_single_use_token(v: DbView, token: Seq<char>, times: Seq<i64>)
    requires
        db_wf(v),
        token_row(v, token) is Some,
        v.tokens[token_row(v, token)->0].max_usage == Some(1i64),
        v.tokens[token_row(v, token)->0].usage_count == 0,
        all_in_time(times, v.tokens[token_row(v, token)->0].expires_at),
        times.len() >= 1,
    ensures
        redeemed_count(v, token, times) == 1,
        redeem_result(v, token, times[0]) is Ok,
        redeem_all(v, token, times).tokens[token_row(v, token)->0].usage_count == 1,
{
    lemma_token_usage_bound(v, token, times);
    let k = token_row(v, token)->0;
    assert(times[0] <= v.tokens[k].expires_at);
    assert(has_usage_left(v.tokens[k]));
}

/// The buttons under a new request carry the request's id: reading the
/// data of the approve button with its prefix, or of the reject button with
/// its prefix, gives the id back.
pub proof fn lemma_buttons_name_their_request(request_id: i64)
    ensures
        callback_request_id_spec(approve_reject_spec(request_id)[0][0].data, "approve:"@) == Ok::<
            i64,
            CallbackError,
        >(request_id),
        callback_request_id_spec(approve_reject_spec(request_id)[0][1].data, "reject:"@) == Ok::<
            i64,
            CallbackError,
        >(request_id),
{
    lemma_callback_round_trip("approve:"@, request_id);
    lemma_callback_round_trip("reject:"@, request_id);
}

} // verus!

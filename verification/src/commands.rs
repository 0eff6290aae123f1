//! What an incoming command or button press asks for: the number after a
//! button's prefix, the argument of a command, the action on the service.

use crate::decimal::int_decimal;
use crate::decimal::lemma_parse_int_decimal;
use crate::decimal::parse_i64_range;
use crate::decimal::parse_i64_spec;
use crate::text::chars_of;
use vstd::prelude::*;

verus! {

/// What stands before the request id in the data of an approve button.
pub const APPROVE_PREFIX: &'static str = "approve:";

/// What stands before the request id in the data of a reject button.
pub const REJECT_PREFIX: &'static str = "reject:";

/// Why the data of a button press cannot be read.
#[derive(Clone, Copy, Debug, PartialEq, Eq, Structural)]
pub enum CallbackError {
    /// The data does not start with the expected prefix.
    BadPayload,
    /// What follows the prefix is no request id.
    BadRequestId,
}

impl CallbackError {
    /// The message for the log.
    pub fn message(&self) -> (text: &'static str)
        ensures
            text@ == match self {
                CallbackError::BadPayload => "Некорректный callback payload"@,
                CallbackError::BadRequestId => "Некорректный request_id"@,
            },
    {
        match self {
            CallbackError::BadPayload => "Некорректный callback payload",
            CallbackError::BadRequestId => "Некорректный request_id",
        }
    }
}

/// Whether `s` starts with `prefix`.
pub open spec fn has_prefix(s: Seq<char>, prefix: Seq<char>) -> bool {
    prefix.len() <= s.len() && s.subrange(0, prefix.len() as int) == prefix
}

/// The request id in the data of a button press: what follows the prefix,
/// read as an `i64`.
pub open spec fn callback_request_id_spec(data: Seq<char>, prefix: Seq<char>) -> Result<
    i64,
    CallbackError,
> {
    if !has_prefix(data, prefix) {
        Err(CallbackError::BadPayload)
    } else {
        match parse_i64_spec(data.subrange(prefix.len() as int, data.len() as int)) {
            Some(id) => Ok(id),
            None => Err(CallbackError::BadRequestId),
        }
    }
}

/// Whether `chars` starts with `prefix`.
pub fn starts_with_chars(chars: &Vec<char>, prefix: &Vec<char>) -> (res: bool)
    ensures
        res == has_prefix(chars@, prefix@),
{
    if prefix.len() > chars.len() {
        return false;
    }
    let mut i: usize = 0;
    while i < prefix.len()
        invariant
            i <= prefix.len() <= chars.len(),
            forall|k: int| 0 <= k < i ==> chars@[k] == prefix@[k],
        decreases prefix.len() - i,
    {
        if chars[i] != prefix[i] {
            assert(chars@.subrange(0, prefix@.len() as int)[i as int] != prefix@[i as int]);
            return false;
        }
        i += 1;
    }
    assert(chars@.subrange(0, prefix@.len() as int) =~= prefix@);
    true
}

/// Whether `data` starts with `prefix`.
pub fn starts_with(data: &str, prefix: &str) -> (res: bool)
    ensures
        res == has_prefix(data@, prefix@),
{
    let chars = chars_of(data);
    let wanted = chars_of(prefix);
    starts_with_chars(&chars, &wanted)
}

/// The request id in the data of a button press. Data without the prefix is
/// refused as a bad payload, and data whose rest is no `i64` as a bad
/// request id.
pub fn parse_callback_request_id(data: &str, prefix: &str) -> (res: Result<i64, CallbackError>)
    ensures
        res == callback_request_id_spec(data@, prefix@),
{
    let chars = chars_of(data);
    let wanted = chars_of(prefix);
    if !starts_with_chars(&chars, &wanted) {
        return Err(CallbackError::BadPayload);
    }
    match parse_i64_range(&chars, wanted.len(), chars.len()) {
        Some(id) => Ok(id),
        None => Err(CallbackError::BadRequestId),
    }
}

/// The data of a button that names a request: the prefix and the id in
/// decimal.
pub open spec fn callback_data_spec(prefix: Seq<char>, request_id: i64) -> Seq<char> {
    prefix + int_decimal(request_id as int)
}

/// Reading the data of a button gives back the request id it was made for.
pub proof fn lemma_callback_round_trip(prefix: Seq<char>, request_id: i64)
    ensures
        callback_request_id_spec(callback_data_spec(prefix, request_id), prefix) == Ok::<
            i64,
            CallbackError,
        >(request_id),
{
    let data = callback_data_spec(prefix, request_id);
    assert(data.subrange(0, prefix.len() as int) =~= prefix);
    assert(data.subrange(prefix.len() as int, data.len() as int) =~= int_decimal(
        request_id as int,
    ));
    lemma_parse_int_decimal(request_id as int);
}

/// Whether `c` parts words: a character with the Unicode property
/// `White_Space`.
pub open spec fn is_space(c: char) -> bool {
    let n = c as u32;
    ||| 0x09 <= n <= 0x0d
    ||| n == 0x20
    ||| n == 0x85
    ||| n == 0xa0
    ||| n == 0x1680
    ||| 0x2000 <= n <= 0x200a
    ||| n == 0x2028
    ||| n == 0x2029
    ||| n == 0x202f
    ||| n == 0x205f
    ||| n == 0x3000
}

/// Whether `c` parts words.
pub fn is_whitespace(c: char) -> (res: bool)
    ensures
        res == is_space(c),
{
    let n = c as u32;
    (0x09 <= n && n <= 0x0d) || n == 0x20 || n == 0x85 || n == 0xa0 || n == 0x1680 || (0x2000 <= n
        && n <= 0x200a) || n == 0x2028 || n == 0x2029 || n == 0x202f || n == 0x205f || n == 0x3000
}

/// The first position at or after `i` that holds no space, or the length.
pub open spec fn skip_spaces(s: Seq<char>, i: int) -> int
    decreases s.len() - i,
{
    if 0 <= i < s.len() && is_space(s[i]) {
        skip_spaces(s, i + 1)
    } else {
        i
    }
}

/// The first position at or after `i` that holds a space, or the length.
pub open spec fn skip_word(s: Seq<char>, i: int) -> int
    decreases s.len() - i,
{
    if 0 <= i < s.len() && !is_space(s[i]) {
        skip_word(s, i + 1)
    } else {
        i
    }
}

/// Where the second word of `s` starts and ends. Words are the runs of
/// characters between spaces; where `s` has no second word the two are the
/// same position.
pub open spec fn second_word_bounds(s: Seq<char>) -> (int, int) {
    let first_start = skip_spaces(s, 0);
    let first_end = skip_word(s, first_start);
    let second_start = skip_spaces(s, first_end);
    (second_start, skip_word(s, second_start))
}

/// The second word of `s`, empty where there is none.
pub open spec fn second_word(s: Seq<char>) -> Seq<char> {
    s.subrange(second_word_bounds(s).0, second_word_bounds(s).1)
}

/// The number a command is given: its second word read as an `i64`.
pub open spec fn command_argument_spec(text: Seq<char>) -> Option<i64> {
    parse_i64_spec(second_word(text))
}

/// The first position at or after `from` that holds no space.
fn after_spaces(chars: &Vec<char>, from: usize) -> (res: usize)
    requires
        from <= chars@.len(),
    ensures
        res == skip_spaces(chars@, from as int),
        from <= res <= chars@.len(),
{
    let mut i = from;
    while i < chars.len() && is_whitespace(chars[i])
        invariant
            from <= i <= chars@.len(),
            skip_spaces(chars@, i as int) == skip_spaces(chars@, from as int),
        decreases chars@.len() - i,
    {
        i += 1;
    }
    i
}

/// The first position at or after `from` that holds a space.
fn after_word(chars: &Vec<char>, from: usize) -> (res: usize)
    requires
        from <= chars@.len(),
    ensures
        res == skip_word(chars@, from as int),
        from <= res <= chars@.len(),
{
    let mut i = from;
    while i < chars.len() && !is_whitespace(chars[i])
        invariant
            from <= i <= chars@.len(),
            skip_word(chars@, i as int) == skip_word(chars@, from as int),
        decreases chars@.len() - i,
    {
        i += 1;
    }
    i
}

/// Where the second word of `chars` starts and ends.
fn find_second_word(chars: &Vec<char>) -> (res: (usize, usize))
    ensures
        (res.0 as int, res.1 as int) == second_word_bounds(chars@),
        res.0 <= res.1 <= chars@.len(),
{
    let first_start = after_spaces(chars, 0);
    let first_end = after_word(chars, first_start);
    let second_start = after_spaces(chars, first_end);
    let second_end = after_word(chars, second_start);
    (second_start, second_end)
}

/// The number a command is given: the second word of the message, read as
/// an `i64`. A message without a second word, or with one that is no `i64`,
/// gives `None`.
pub fn command_argument(text: &str) -> (res: Option<i64>)
    ensures
        res == command_argument_spec(text@),
{
    let chars = chars_of(text);
    let (start, end) = find_second_word(&chars);
    parse_i64_range(&chars, start, end)
}

/// What can be asked of the proxy's service.
#[derive(Clone, Copy, Debug, PartialEq, Eq, Structural)]
pub enum ServiceAction {
    Start,
    Stop,
    Restart,
    Status,
}

/// The word for an action.
pub open spec fn service_action_name(action: ServiceAction) -> Seq<char> {
    match action {
        ServiceAction::Start => "start"@,
        ServiceAction::Stop => "stop"@,
        ServiceAction::Restart => "restart"@,
        ServiceAction::Status => "status"@,
    }
}

/// The action a word names.
pub open spec fn service_action_of(word: Seq<char>) -> Option<ServiceAction> {
    if word == "start"@ {
        Some(ServiceAction::Start)
    } else if word == "stop"@ {
        Some(ServiceAction::Stop)
    } else if word == "restart"@ {
        Some(ServiceAction::Restart)
    } else if word == "status"@ {
        Some(ServiceAction::Status)
    } else {
        None
    }
}

/// The action a service command asks for: the one its second word names,
/// and the status where it has no second word.
pub open spec fn service_command_spec(text: Seq<char>) -> Option<ServiceAction> {
    if second_word(text).len() == 0 {
        Some(ServiceAction::Status)
    } else {
        service_action_of(second_word(text))
    }
}

impl ServiceAction {
    /// The word for this action.
    pub fn name(&self) -> (res: &'static str)
        ensures
            res@ == service_action_name(*self),
    {
        match self {
            ServiceAction::Start => "start",
            ServiceAction::Stop => "stop",
            ServiceAction::Restart => "restart",
            ServiceAction::Status => "status",
        }
    }
}

/// Whether the characters of `chars` from `from` up to `to` spell `word`.
fn range_is(chars: &Vec<char>, from: usize, to: usize, word: &str) -> (res: bool)
    requires
        from <= to <= chars@.len(),
    ensures
        res == (chars@.subrange(from as int, to as int) == word@),
{
    let wanted = chars_of(word);
    if wanted.len() != to - from {
        return false;
    }
    let mut i: usize = 0;
    while i < wanted.len()
        invariant
            from <= to <= chars@.len(),
            wanted@ == word@,
            wanted@.len() == to - from,
            i <= wanted@.len(),
            forall|k: int| 0 <= k < i ==> chars@[from + k] == wanted@[k],
        decreases wanted.len() - i,
    {
        if chars[from + i] != wanted[i] {
            assert(chars@.subrange(from as int, to as int)[i as int] != wanted@[i as int]);
            return false;
        }
        i += 1;
    }
    assert(chars@.subrange(from as int, to as int) =~= wanted@);
    true
}

/// The action a service command asks for. A second word that names no
/// action gives `None`.
pub fn parse_service_command(text: &str) -> (res: Option<ServiceAction>)
    ensures
        res == service_command_spec(text@),
{
    let chars = chars_of(text);
    let (start, end) = find_second_word(&chars);
    if start == end {
        Some(ServiceAction::Status)
    } else if range_is(&chars, start, end, "start") {
        Some(ServiceAction::Start)
    } else if range_is(&chars, start, end, "stop") {
        Some(ServiceAction::Stop)
    } else if range_is(&chars, start, end, "restart") {
        Some(ServiceAction::Restart)
    } else if range_is(&chars, start, end, "status") {
        Some(ServiceAction::Status)
    } else {
        None
    }
}

} // verus!

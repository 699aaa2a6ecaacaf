//! The authorization through the browser: what was sent out, and what the
//! redirect that comes back must carry.

use vstd::prelude::*;
use crate::errors::ProcessAuthorizationError;

verus! {

/// An authorization that waits for its redirect: the address to visit, the
/// state that the redirect must bring back, and the verifier that was made
/// for it and is shown to the token endpoint alone.
#[derive(Debug, PartialEq, Eq)]
pub struct PendingAuthorization {
    pub url: String,
    pub state: String,
    pub verifier: String,
}

/// An authorization whose redirect has arrived with a code.
#[derive(Debug, PartialEq, Eq)]
pub struct FinishedAuthorization {
    pub pending: PendingAuthorization,
    pub code: String,
}

/// What is wrong with the parameters of a redirect, if anything is: the state
/// is judged first, so that a code is only looked at when the redirect
/// belongs to this authorization.
pub open spec fn redirect_fault(
    expected_state: Seq<char>,
    code: Option<Seq<char>>,
    state: Option<Seq<char>>,
) -> Option<ProcessAuthorizationError> {
    if state != Some(expected_state) {
        Some(ProcessAuthorizationError::StateMismatch)
    } else if code is None {
        Some(ProcessAuthorizationError::MissingCode)
    } else {
        None
    }
}

/// Judges the one redirect that the listener accepted, by the `code` and
/// `state` parameters that it carried. The redirect finishes the authorization
/// when its state is the one that was sent out and it carries a code.
pub fn accept_redirect(
    pending: PendingAuthorization,
    code: Option<String>,
    state: Option<String>,
) -> (accepted: Result<FinishedAuthorization, ProcessAuthorizationError>)
    ensures
        match redirect_fault(
            pending.state@,
            crate::models::text_of(code),
            crate::models::text_of(state),
        ) {
            Some(fault) => accepted == Err::<FinishedAuthorization, ProcessAuthorizationError>(
                fault,
            ),
            None => accepted == Ok::<FinishedAuthorization, ProcessAuthorizationError>(
                FinishedAuthorization { pending, code: code->0 },
            ),
        },
{
    let matches = match &state {
        Some(given) => *given == pending.state,
        None => false,
    };
    if !matches {
        return Err(ProcessAuthorizationError::StateMismatch);
    }
    match code {
        Some(code) => Ok(FinishedAuthorization { pending, code }),
        None => Err(ProcessAuthorizationError::MissingCode),
    }
}

/// `at` is the place of the first parameter named `name` among `pairs`.
pub open spec fn is_first_named(pairs: Seq<(String, String)>, name: Seq<char>, at: int) -> bool {
    &&& 0 <= at < pairs.len()
    &&& pairs[at].0@ == name
    &&& forall|j: int| 0 <= j < at ==> pairs[j].0@ != name
}

/// The value of the parameter `name` among the parameters of a redirect, each
/// a name with its value: that of the first parameter of that name, where
/// there is one.
pub fn first_value(pairs: &Vec<(String, String)>, name: &str) -> (found: Option<String>)
    ensures
        match found {
            Some(value) => exists|at: int|
                #[trigger] is_first_named(pairs@, name@, at) && value == pairs@[at].1,
            None => forall|j: int| 0 <= j < pairs@.len() ==> pairs@[j].0@ != name@,
        },
{
    let wanted = String::from_str(name);
    let mut at: usize = 0;
    while at < pairs.len()
        invariant
            at <= pairs@.len(),
            wanted@ == name@,
            forall|j: int| 0 <= j < at ==> pairs@[j].0@ != name@,
        decreases pairs@.len() - at,
    {
        if pairs[at].0 == wanted {
            assert(is_first_named(pairs@, name@, at as int));
            return Some(pairs[at].1.clone());
        }
        at += 1;
    }
    None
}

/// A byte that ends a line or parts the words of a request line.
pub open spec fn ends_word(byte: u8) -> bool {
    byte == 0x20 || byte == 0x0D || byte == 0x0A
}

/// `head[start..end]` is the target of the request line that `head` begins
/// with: the second of its words, which single spaces part. The first word,
/// the method, is not empty and ends at the first space of `head`, with no
/// line end before it; the target is not empty and ends at the next space,
/// with no line end before it.
pub open spec fn is_request_target(head: Seq<u8>, start: int, end: int) -> bool {
    &&& 1 < start < end < head.len()
    &&& head[start - 1] == 0x20
    &&& head[end] == 0x20
    &&& forall|k: int| 0 <= k < start - 1 ==> !ends_word(#[trigger] head[k])
    &&& forall|k: int| start <= k < end ==> !ends_word(#[trigger] head[k])
}

/// Finds the target of the request line that `head` begins with, as the
/// bounds of its bytes in `head`. Returns nothing where `head` does not begin
/// with a method, a space, a target and a space.
pub fn request_target(head: &[u8]) -> (found: Option<(usize, usize)>)
    ensures
        match found {
            Some((start, end)) => is_request_target(head@, start as int, end as int),
            None => forall|start: int, end: int| !is_request_target(head@, start, end),
        },
{
    let mut at: usize = 0;
    while at < head.len() && !(head[at] == 0x20 || head[at] == 0x0D || head[at] == 0x0A)
        invariant
            at <= head@.len(),
            forall|k: int| 0 <= k < at ==> !ends_word(#[trigger] head@[k]),
        decreases head@.len() - at,
    {
        at += 1;
    }
    if at == 0 || at >= head.len() || head[at] != 0x20 {
        assert forall|start: int, end: int| !is_request_target(head@, start, end) by {
            if is_request_target(head@, start, end) {
                if start - 1 < at {
                    assert(!ends_word(head@[start - 1]));
                } else if start - 1 > at {
                    assert(ends_word(head@[at as int]));
                }
            }
        }
        return None;
    }
    let start = at + 1;
    let mut end: usize = start;
    while end < head.len() && !(head[end] == 0x20 || head[end] == 0x0D || head[end] == 0x0A)
        invariant
            start <= end <= head@.len(),
            forall|k: int| start <= k < end ==> !ends_word(#[trigger] head@[k]),
        decreases head@.len() - end,
    {
        end += 1;
    }
    if end == start || end >= head.len() || head[end] != 0x20 {
        assert forall|first: int, last: int| !is_request_target(head@, first, last) by {
            if is_request_target(head@, first, last) {
                if first - 1 < at {
                    assert(!ends_word(head@[first - 1]));
                } else if first - 1 > at {
                    assert(ends_word(head@[at as int]));
                } else if last < end {
                    assert(!ends_word(head@[last]));
                } else if last > end {
                    assert(ends_word(head@[end as int]));
                }
            }
        }
        return None;
    }
    Some((start, end))
}

} // verus!

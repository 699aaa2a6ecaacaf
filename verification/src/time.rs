//! Instants on the UTC timeline, as the credential record stores them.

use vstd::prelude::*;

verus! {

/// An instant: whole seconds since the Unix epoch, and the nanoseconds into
/// that second. Instants are ordered by `secs`, then by `nanos`.
#[derive(Clone, Copy, Debug, PartialEq, Eq, Structural)]
pub struct Timestamp {
    pub secs: i64,
    pub nanos: u32,
}

impl Timestamp {
    /// `self` lies strictly before `other`.
    pub open spec fn is_before(self, other: Timestamp) -> bool {
        self.secs < other.secs || (self.secs == other.secs && self.nanos < other.nanos)
    }

    pub fn new(secs: i64, nanos: u32) -> (t: Timestamp)
        ensures
            t == (Timestamp { secs, nanos }),
    {
        Timestamp { secs, nanos }
    }

    /// The instant `seconds` after `self`, or before it where `seconds` is
    /// negative; the last or first second that can be written where the sum
    /// cannot.
    pub open spec fn shifted(self, seconds: int) -> Timestamp {
        let secs = self.secs + seconds;
        Timestamp {
            secs: if secs > i64::MAX {
                i64::MAX
            } else if secs < i64::MIN {
                i64::MIN
            } else {
                secs as i64
            },
            nanos: self.nanos,
        }
    }

    /// The instant `seconds` after `self`, as for a token that is valid for
    /// that long from `self` on.
    pub fn plus_seconds(&self, seconds: i64) -> (later: Timestamp)
        ensures
            later == self.shifted(seconds as int),
    {
        let sum: i128 = self.secs as i128 + seconds as i128;
        let secs: i64 = if sum > i64::MAX as i128 {
            i64::MAX
        } else if sum < i64::MIN as i128 {
            i64::MIN
        } else {
            sum as i64
        };
        Timestamp { secs, nanos: self.nanos }
    }

    /// Whether `self` lies strictly before `other`.
    pub fn before(&self, other: &Timestamp) -> (earlier: bool)
        ensures
            earlier == self.is_before(*other),
    {
        self.secs < other.secs || (self.secs == other.secs && self.nanos < other.nanos)
    }
}

/// Reads the system clock with `chrono::Utc::now` and splits the instant into
/// `DateTime::timestamp` and `DateTime::timestamp_subsec_nanos`. Nothing is
/// claimed of the value: it is whatever the clock says. `Utc::now` stops the
/// program when the system clock is set before 1970.
#[verifier::external_body]
pub(crate) fn system_now() -> (now: Timestamp) {
    let now = chrono::Utc::now();
    Timestamp { secs: now.timestamp(), nanos: now.timestamp_subsec_nanos() }
}

} // verus!

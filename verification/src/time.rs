//! Instants on the UTC time line, with the one comparison the token cache needs.

use vstd::prelude::*;

verus! {

/// Seconds of remaining life below which a cached token is renewed.
pub const RENEWAL_MARGIN_SECS: i64 = 60;

/// An instant on the UTC time line: whole seconds since the Unix epoch, and
/// the nanoseconds into that second.
///
/// Instants are ordered by `secs`, then by `nanos`. A clock keeps `nanos`
/// below one second; an instant within a leap second may carry a second
/// more there, and is compared as it stands. The library reads no clock:
/// whoever asks it for a decision hands it the reading to decide by.
#[derive(Clone, Copy, Debug, PartialEq, Eq, Structural)]
pub struct Timestamp {
    pub secs: i64,
    pub nanos: u32,
}

impl Timestamp {
    /// `self` lies strictly before `other`.
    pub open spec fn before(self, other: Timestamp) -> bool {
        self.secs < other.secs || (self.secs == other.secs && self.nanos < other.nanos)
    }

    /// A token that expires at `self` has less than the renewal margin left
    /// when the clock reads `now`: `self` lies strictly before the instant
    /// sixty seconds after `now`.
    pub open spec fn expiring(self, now: Timestamp) -> bool {
        ||| self.secs < now.secs + RENEWAL_MARGIN_SECS
        ||| (self.secs == now.secs + RENEWAL_MARGIN_SECS && self.nanos < now.nanos)
    }

    pub fn new(secs: i64, nanos: u32) -> (t: Timestamp)
        ensures
            t.secs == secs,
            t.nanos == nanos,
    {
        Timestamp { secs, nanos }
    }

    pub fn is_before(&self, other: &Timestamp) -> (b: bool)
        ensures
            b == self.before(*other),
    {
        self.secs < other.secs || (self.secs == other.secs && self.nanos < other.nanos)
    }

    /// Whether a token that expires at `self` is due for renewal at `now`.
    /// The sum `now.secs + 60` is taken in a wider type, so every pair of
    /// instants is answered.
    pub fn is_expiring(&self, now: &Timestamp) -> (b: bool)
        ensures
            b == self.expiring(*now),
    {
        let deadline: i128 = now.secs as i128 + RENEWAL_MARGIN_SECS as i128;
        let expiry: i128 = self.secs as i128;
        expiry < deadline || (expiry == deadline && self.nanos < now.nanos)
    }
}

} // verus!

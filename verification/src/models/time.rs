//! Instants on the UTC time line, as plain integers.

use vstd::prelude::*;

verus! {

pub const NANOS_PER_SECOND: i128 = 1_000_000_000;

pub const NANOS_PER_DAY: i128 = 86_400_000_000_000;

/// An instant: whole seconds since 1970-01-01 00:00:00 UTC, and the
/// nanoseconds that follow them.
///
/// Every pair of values is an instant; `nanos` above 999,999,999 simply
/// reaches into the following seconds. Where a leap second is written as the
/// 59th second of a minute with a full second or more of nanoseconds, it so
/// counts as part of the second that follows: such a stamp is not earlier
/// than the start of the next minute, and days are counted accordingly.
#[derive(Clone, Copy, Debug, PartialEq, Eq, Structural)]
pub struct Timestamp {
    pub secs: i64,
    pub nanos: u32,
}

impl Timestamp {
    /// Nanoseconds since the epoch.
    pub open spec fn instant(self) -> int {
        self.secs * 1_000_000_000 + self.nanos
    }

    /// True when `self` is strictly later than `other`.
    pub open spec fn spec_is_after(self, other: Timestamp) -> bool {
        self.instant() > other.instant()
    }

    /// True when `self` lies strictly after the instant `days` days before `now`.
    pub open spec fn spec_is_within_days(self, now: Timestamp, days: nat) -> bool {
        self.instant() > now.instant() - days * 86_400_000_000_000
    }

    /// The whole days from `earlier` to `self`, rounded toward zero; negative
    /// when `self` is the earlier of the two by a day or more.
    pub open spec fn spec_days_since(self, earlier: Timestamp) -> int {
        let elapsed = self.instant() - earlier.instant();
        if elapsed >= 0 {
            elapsed / 86_400_000_000_000
        } else {
            -((-elapsed) / 86_400_000_000_000)
        }
    }

    /// The days a thing begun at `since` has been active at `self`: the whole
    /// days elapsed, and never less than one.
    pub open spec fn spec_days_active(self, since: Timestamp) -> int {
        if self.spec_days_since(since) >= 1 {
            self.spec_days_since(since)
        } else {
            1
        }
    }

    pub fn nanos_since_epoch(&self) -> (n: i128)
        ensures
            n == self.instant(),
    {
        let secs: i128 = self.secs as i128;
        let nanos: i128 = self.nanos as i128;
        secs * NANOS_PER_SECOND + nanos
    }

    pub fn is_after(&self, other: &Timestamp) -> (later: bool)
        ensures
            later == self.spec_is_after(*other),
    {
        self.nanos_since_epoch() > other.nanos_since_epoch()
    }

    pub fn is_within_days(&self, now: &Timestamp, days: u32) -> (recent: bool)
        ensures
            recent == self.spec_is_within_days(*now, days as nat),
    {
        let span: i128 = days as i128;
        self.nanos_since_epoch() > now.nanos_since_epoch() - span * NANOS_PER_DAY
    }

    pub fn days_since(&self, earlier: &Timestamp) -> (days: i64)
        ensures
            days == self.spec_days_since(*earlier),
    {
        let elapsed: i128 = self.nanos_since_epoch() - earlier.nanos_since_epoch();
        if elapsed >= 0 {
            (elapsed / NANOS_PER_DAY) as i64
        } else {
            let back: i128 = (-elapsed) / NANOS_PER_DAY;
            (-back) as i64
        }
    }

    pub fn days_active(&self, since: &Timestamp) -> (days: u64)
        ensures
            days == self.spec_days_active(*since),
            days >= 1,
    {
        let elapsed: i64 = self.days_since(since);
        if elapsed >= 1 {
            elapsed as u64
        } else {
            1
        }
    }
}

/// Reads the clock: calls `chrono::Utc::now` and hands back the seconds and
/// nanoseconds of the instant it returned. The reading depends on the
/// machine's clock, so nothing is claimed of it.
#[verifier::external_body]
pub(crate) fn clock_reading() -> Timestamp {
    let now = chrono::Utc::now();
    Timestamp { secs: now.timestamp(), nanos: now.timestamp_subsec_nanos() }
}

} // verus!

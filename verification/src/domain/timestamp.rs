//! Instants on the UTC time line, and the clock and calendar that produce them.

use vstd::prelude::*;

verus! {

/// An instant in UTC: the whole seconds since 1970-01-01 00:00:00, and the
/// nanoseconds that have passed since that second began.
///
/// Instants are ordered by `secs` first and by `nanos` second. Every second
/// of this time line is one step long: the instant `n` seconds after
/// another has `n` more in `secs` and the same `nanos`.
#[derive(Clone, Copy, Debug, PartialEq, Eq, Hash, Structural)]
pub struct Timestamp {
    pub secs: i64,
    pub nanos: u32,
}

/// What the calendar reads from `text` under the layout `format`: the instant
/// it denotes when taken as UTC, or `None` where the text does not follow the
/// layout or names no real date and time.
pub uninterp spec fn parsed_naive_utc(text: Seq<char>, format: Seq<char>) -> Option<Timestamp>;

impl Timestamp {
    /// `self` is not later than `other`.
    pub open spec fn at_or_before(self, other: Timestamp) -> bool {
        self.secs < other.secs || (self.secs == other.secs && self.nanos <= other.nanos)
    }

    /// `self` lies in the window from `start` to `end`, both ends included.
    pub open spec fn within(self, start: Timestamp, end: Timestamp) -> bool {
        start.at_or_before(self) && self.at_or_before(end)
    }

    /// Moving `self` by `seconds` stays on the representable time line.
    pub open spec fn can_shift(self, seconds: int) -> bool {
        i64::MIN <= self.secs + seconds <= i64::MAX
    }

    /// The instant `seconds` after `self` (before it, for a negative count).
    /// Meaningful where `can_shift(seconds)` holds.
    pub open spec fn shifted(self, seconds: int) -> Timestamp {
        Timestamp { secs: (self.secs + seconds) as i64, nanos: self.nanos }
    }

    /// Tells whether `self` is not later than `other`.
    pub fn is_at_or_before(&self, other: &Timestamp) -> (b: bool)
        ensures
            b == self.at_or_before(*other),
    {
        self.secs < other.secs || (self.secs == other.secs && self.nanos <= other.nanos)
    }

    /// Tells whether `self` lies between `start` and `end`, both included.
    pub fn is_within(&self, start: &Timestamp, end: &Timestamp) -> (b: bool)
        ensures
            b == self.within(*start, *end),
    {
        start.is_at_or_before(self) && self.is_at_or_before(end)
    }

    /// The instant `steps` intervals of `interval` seconds after `self`, or
    /// `None` where that instant is beyond the representable time line.
    pub fn checked_after_steps(&self, interval: i64, steps: usize) -> (r: Option<Timestamp>)
        ensures
            self.can_shift(interval * steps) ==> r == Some(self.shifted(interval * steps)),
            !self.can_shift(interval * steps) ==> r is None,
    {
        assert(-0x7fff_ffff_ffff_ffff_8000_0000_0000_0000 <= interval * steps
            <= 0x7fff_ffff_ffff_ffff_8000_0000_0000_0000) by (nonlinear_arith)
            requires
                -0x8000_0000_0000_0000 <= interval < 0x8000_0000_0000_0000,
                0 <= steps <= 0xffff_ffff_ffff_ffff,
        ;
        let delta: i128 = (interval as i128) * (steps as i128);
        let secs: i128 = self.secs as i128 + delta;
        if i64::MIN as i128 <= secs && secs <= i64::MAX as i128 {
            Some(Timestamp { secs: secs as i64, nanos: self.nanos })
        } else {
            None
        }
    }

    /// The instant `steps` intervals of `interval` seconds after `self`.
    pub fn after_steps(&self, interval: i64, steps: usize) -> (r: Timestamp)
        requires
            self.can_shift(interval * steps),
        ensures
            r == self.shifted(interval * steps),
    {
        match self.checked_after_steps(interval, steps) {
            Some(at) => at,
            None => *self,
        }
    }

    /// Reads the system clock through `chrono::Utc::now`, and hands the
    /// instant back as `DateTime::timestamp` and
    /// `DateTime::timestamp_subsec_nanos` give it. Nothing is claimed of the
    /// instant: it is whatever the clock says.
    #[verifier::external_body]
    pub(crate) fn now() -> (now: Timestamp) {
        let now = chrono::Utc::now();
        Timestamp { secs: now.timestamp(), nanos: now.timestamp_subsec_nanos() }
    }

    /// Parses `text` with `chrono::NaiveDateTime::parse_from_str` under the
    /// layout `format` and takes the date and time it names as UTC
    /// (`NaiveDateTime::and_utc`). The claim is only that the answer is a
    /// function of the two strings: the same text under the same layout always
    /// gives the same instant, or always none.
    #[verifier::external_body]
    pub(crate) fn parse_naive_utc(text: &str, format: &str) -> (r: Option<Timestamp>)
        ensures
            r == parsed_naive_utc(text@, format@),
    {
        match chrono::NaiveDateTime::parse_from_str(text, format) {
            Ok(naive) => {
                let at = naive.and_utc();
                Some(Timestamp { secs: at.timestamp(), nanos: at.timestamp_subsec_nanos() })
            },
            Err(_) => None,
        }
    }
}

impl Default for Timestamp {
    /// The start of the time line: 1970-01-01 00:00:00 UTC.
    fn default() -> (epoch: Self)
        ensures
            epoch == (Timestamp { secs: 0, nanos: 0 }),
    {
        Timestamp { secs: 0, nanos: 0 }
    }
}

} // verus!

//! Instants with the offset of the clock that reported them.
use vstd::prelude::*;

verus! {

/// The pad added to the last reading of a cold phase: a reading stands for
/// about one hour.
pub const HOUR_SECONDS: i64 = 3600;

/// The length of a day on a clock that knows no leap seconds.
pub const DAY_SECONDS: i64 = 86_400;

/// A point in time together with the offset from UTC of the clock it was
/// read from.
///
/// `seconds` and `nanos` count from 1970-01-01T00:00:00Z; `offset` is in
/// seconds east of UTC and does not change which instant is meant. The
/// derived `==` compares all three fields.
#[derive(Clone, Copy, Debug, PartialEq, Eq, Structural)]
pub struct Timestamp {
    pub seconds: i64,
    pub nanos: u32,
    pub offset: i32,
}

impl Timestamp {
    /// Whether `self` is an earlier instant than `other`. Offsets play no
    /// part.
    pub open spec fn spec_is_before(&self, other: &Timestamp) -> bool {
        self.seconds < other.seconds || (self.seconds == other.seconds && self.nanos
            < other.nanos)
    }

    /// Whether `self` is the same instant as `other` or an earlier one.
    pub open spec fn not_after(&self, other: &Timestamp) -> bool {
        !other.spec_is_before(self)
    }

    /// Whether one hour can be added without leaving the range of `seconds`.
    pub open spec fn spec_can_pad(&self) -> bool {
        self.seconds + HOUR_SECONDS <= i64::MAX
    }

    /// The instant one hour later, on the same clock.
    pub open spec fn padded(&self) -> Timestamp
        recommends
            self.spec_can_pad(),
    {
        Timestamp {
            seconds: (self.seconds + HOUR_SECONDS) as i64,
            nanos: self.nanos,
            offset: self.offset,
        }
    }

    /// The number of the day that the clock of the timestamp shows, counted
    /// from 1970-01-01 on that clock.
    pub open spec fn spec_local_day(&self) -> int {
        (self.seconds + self.offset) / (DAY_SECONDS as int)
    }

    /// Whether the clocks of two timestamps show the same date.
    pub open spec fn spec_same_date(&self, other: &Timestamp) -> bool {
        self.spec_local_day() == other.spec_local_day()
    }

    /// The number of the day that the clock of the timestamp shows.
    pub fn local_day(&self) -> (day: i64)
        ensures
            day == self.spec_local_day(),
    {
        let local: i128 = self.seconds as i128 + self.offset as i128;
        let length: i128 = DAY_SECONDS as i128;
        if local >= 0 {
            (local / length) as i64
        } else {
            // Round towards the earlier day.
            let back: i128 = -local;
            let days: i128 = (back + (length - 1)) / length;
            assert(-days == local / 86_400);
            (-days) as i64
        }
    }

    /// Whether the clocks of two timestamps show the same date.
    #[verifier::when_used_as_spec(spec_same_date)]
    pub fn same_date(&self, other: &Timestamp) -> (out: bool)
        ensures
            out == self.spec_same_date(other),
    {
        self.local_day() == other.local_day()
    }

    /// The instant one hour earlier, on the same clock: what a padded
    /// timestamp was before.
    pub open spec fn unpadded(&self) -> Timestamp {
        Timestamp {
            seconds: (self.seconds - HOUR_SECONDS) as i64,
            nanos: self.nanos,
            offset: self.offset,
        }
    }

    /// Whether `self` is an earlier instant than `other`.
    #[verifier::when_used_as_spec(spec_is_before)]
    pub fn is_before(&self, other: &Timestamp) -> (out: bool)
        ensures
            out == self.spec_is_before(other),
    {
        self.seconds < other.seconds || (self.seconds == other.seconds && self.nanos
            < other.nanos)
    }

    /// Whether one hour can be added to the timestamp.
    #[verifier::when_used_as_spec(spec_can_pad)]
    pub fn can_pad(&self) -> (out: bool)
        ensures
            out == self.spec_can_pad(),
    {
        self.seconds <= i64::MAX - HOUR_SECONDS
    }

    /// The timestamp one hour later.
    pub fn plus_one_hour(&self) -> (out: Timestamp)
        requires
            self.can_pad(),
        ensures
            out == self.padded(),
    {
        Timestamp { seconds: self.seconds + HOUR_SECONDS, nanos: self.nanos, offset: self.offset }
    }

    /// The timestamp one hour later, or `None` where that leaves the range
    /// of `seconds`.
    pub fn checked_plus_one_hour(&self) -> (out: Option<Timestamp>)
        ensures
            out == if self.can_pad() {
                Some(self.padded())
            } else {
                None
            },
    {
        if self.can_pad() {
            Some(self.plus_one_hour())
        } else {
            None
        }
    }
}

/// Instants are totally ordered: `is_before` is irreflexive and transitive,
/// and of two timestamps that are not the same instant one is before the
/// other.
pub proof fn lemma_instants_ordered(a: Timestamp, b: Timestamp, c: Timestamp)
    ensures
        !a.is_before(&a),
        a.is_before(&b) && b.is_before(&c) ==> a.is_before(&c),
        a.not_after(&b) && b.not_after(&c) ==> a.not_after(&c),
        a.is_before(&b) || b.is_before(&a) || (a.seconds == b.seconds && a.nanos == b.nanos),
{
}

/// The pad moves a timestamp strictly forward, keeps the order of any two
/// and can be taken off again.
pub proof fn lemma_pad_moves_forward(a: Timestamp, b: Timestamp)
    requires
        a.can_pad(),
        b.can_pad(),
    ensures
        a.is_before(&a.padded()),
        a.not_after(&b) ==> a.is_before(&b.padded()),
        a.is_before(&b) <==> a.padded().is_before(&b.padded()),
        a.padded().unpadded() == a,
{
}

} // verus!

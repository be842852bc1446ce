use vstd::prelude::*;

pub mod parser;

verus! {

/// `UtcOffset` of the time crate: an offset from UTC. Nothing is claimed of it; it is
/// carried to the clock.
#[verifier::external_type_specification]
#[verifier::external_body]
pub struct ExUtcOffset(time::UtcOffset);

pub const DATE_DISPLAY_FORMATTING: &'static str = "%Y-%m-%d %H:%M:%S";

/// The Julian day of the first date that can be held, the first day of the year -9999.
pub const MIN_JULIAN_DAY: i32 = -1_930_999;

/// The Julian day of the last date that can be held, the last day of the year 9999.
pub const MAX_JULIAN_DAY: i32 = 5_373_484;

/// A calendar date, held as its Julian day number. The derived order is the order of the
/// calendar.
#[derive(Clone, Copy, Debug, PartialEq, Eq, Hash, PartialOrd, Ord, Structural)]
pub struct Date {
    pub julian_day: i32,
}

/// An instant, with the offset from UTC under which it was taken.
#[derive(Clone, Copy, Debug, PartialEq, Eq, Hash, PartialOrd, Ord, Structural)]
pub struct Timestamp {
    /// Whole seconds since the Unix epoch.
    pub unix_seconds: i64,
    /// The nanoseconds past that second.
    pub nanosecond: u32,
    /// The offset from UTC, in seconds.
    pub offset_seconds: i32,
}

/// The day that lies `days` days after the Julian day `from`, held to the range of dates: a
/// day before the first date is the first date, one after the last date is the last.
pub open spec fn saturated_day(from: int, days: int) -> int {
    if from + days < MIN_JULIAN_DAY {
        MIN_JULIAN_DAY as int
    } else if from + days > MAX_JULIAN_DAY {
        MAX_JULIAN_DAY as int
    } else {
        from + days
    }
}

impl Date {
    /// The day lies within the years -9999 to 9999.
    pub open spec fn is_valid(self) -> bool {
        MIN_JULIAN_DAY <= self.julian_day <= MAX_JULIAN_DAY
    }

    /// Tells whether this date comes after `other` in the calendar.
    pub fn gt(&self, other: &Date) -> (after: bool)
        ensures
            after == (self.julian_day > other.julian_day),
    {
        self.julian_day > other.julian_day
    }

    /// The number of days from `earlier` to this date; negative where this date comes first.
    pub fn days_since(&self, earlier: &Date) -> (days: i64)
        ensures
            days == self.julian_day - earlier.julian_day,
    {
        self.julian_day as i64 - earlier.julian_day as i64
    }

    /// The date `days` days after this one, or before it for a negative number. A date
    /// beyond the last one that can be held is the last one, a date before the first is the
    /// first.
    pub fn saturating_add_days(self, days: i64) -> (date: Date)
        ensures
            date.julian_day == saturated_day(self.julian_day as int, days as int),
            date.is_valid(),
    {
        let from = self.julian_day as i64;
        if days < MIN_JULIAN_DAY as i64 - from {
            Date { julian_day: MIN_JULIAN_DAY }
        } else if days > MAX_JULIAN_DAY as i64 - from {
            Date { julian_day: MAX_JULIAN_DAY }
        } else {
            Date { julian_day: (from + days) as i32 }
        }
    }
}

/// `OffsetDateTime::now_utc`, `OffsetDateTime::to_offset` and `OffsetDateTime::date` of the
/// time crate: the date that the clock shows under the given offset. The contract claims
/// only that this is a date that can be held.
#[must_use]
#[verifier::external_body]
pub fn today(offset: time::UtcOffset) -> (date: Date)
    ensures
        date.is_valid(),
{
    Date { julian_day: time::OffsetDateTime::now_utc().to_offset(offset).date().to_julian_day() }
}

/// `date` lies `days` days after the day `shown`, a date that can be held, and is held to
/// the range of dates itself.
pub open spec fn counted_from(shown: Date, days: int, date: Date) -> bool {
    shown.is_valid() && date.julian_day == saturated_day(shown.julian_day as int, days)
}

/// The day after the one that the clock shows under the given offset.
#[must_use]
pub fn tomorrow(offset: time::UtcOffset) -> (date: Date)
    ensures
        date.is_valid(),
        exists|shown: Date| counted_from(shown, 1, date),
{
    day_from_today(offset, 1)
}

/// The day `n` days after the one that the clock shows under the given offset, held to the
/// range of dates as [`Date::saturating_add_days`] holds it.
#[must_use]
pub fn day_from_today(offset: time::UtcOffset, n: i64) -> (date: Date)
    ensures
        date.is_valid(),
        exists|shown: Date| counted_from(shown, n as int, date),
{
    let shown = today(offset);
    let date = shown.saturating_add_days(n);
    assert(counted_from(shown, n as int, date));
    date
}

} // verus!

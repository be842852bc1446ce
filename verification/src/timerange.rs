use vstd::prelude::*;

use crate::timeutils::Timestamp;

verus! {

pub const DATE_DISPLAY_FORMATTING: &'static str = "%Y-%m-%d %H:%M:%S";

/// The seconds of a day.
pub const SECONDS_PER_DAY: i64 = 86_400;

#[derive(Clone, Copy, Debug, PartialEq, Eq, Hash, Structural)]
pub enum Error {
    CreatingTimeFailed,
    AddingTimeFailed,
    ToIsNotAfterFrom,
}

impl Error {
    /// The text of [`Error::to_string`].
    pub open spec fn text(self) -> Seq<char> {
        match self {
            Error::CreatingTimeFailed => "could not get time"@,
            Error::AddingTimeFailed => "failed in adding time to day"@,
            Error::ToIsNotAfterFrom => "from must be before after"@,
        }
    }

    /// What went wrong, in words for the operator.
    pub fn to_string(&self) -> (text: String)
        ensures
            text@ == self.text(),
    {
        match self {
            Error::CreatingTimeFailed => "could not get time".to_owned(),
            Error::AddingTimeFailed => "failed in adding time to day".to_owned(),
            Error::ToIsNotAfterFrom => "from must be before after".to_owned(),
        }
    }
}

/// A span of time that may be open at either end.
#[derive(Clone, Copy, Debug, PartialEq, Eq, Hash, PartialOrd, Ord, Structural)]
pub struct TimeRange {
    pub from: Option<Timestamp>,
    pub to: Option<Timestamp>,
}

/// The first instant comes before the second, whatever their offsets.
pub open spec fn is_before(a: Timestamp, b: Timestamp) -> bool {
    a.unix_seconds < b.unix_seconds || (a.unix_seconds == b.unix_seconds && a.nanosecond
        < b.nanosecond)
}

fn before(a: &Timestamp, b: &Timestamp) -> (earlier: bool)
    ensures
        earlier == is_before(*a, *b),
{
    a.unix_seconds < b.unix_seconds || (a.unix_seconds == b.unix_seconds && a.nanosecond
        < b.nanosecond)
}

/// The second of the epoch with which the day of `point` begins under the offset of
/// `point`.
pub open spec fn start_of_day(point: Timestamp) -> int {
    point.unix_seconds - (point.unix_seconds + point.offset_seconds) % (SECONDS_PER_DAY as int)
}

impl TimeRange {
    /// Both ends are given and the range does not end after it begins.
    pub open spec fn is_inverted(from: Option<Timestamp>, to: Option<Timestamp>) -> bool {
        from is Some && to is Some && !is_before(from->Some_0, to->Some_0)
    }

    /// The point lies in the range: not before its beginning and not after its end.
    pub open spec fn holds(self, point: Timestamp) -> bool {
        &&& self.from is Some ==> !is_before(point, self.from->Some_0)
        &&& self.to is Some ==> !is_before(self.to->Some_0, point)
    }

    /// The range from `from` to `to`. Where both are given, `to` must come after `from`,
    /// else the range is refused with `ToIsNotAfterFrom`.
    pub fn build(from: Option<Timestamp>, to: Option<Timestamp>) -> (range: Result<Self, Error>)
        ensures
            range == if Self::is_inverted(from, to) {
                Err::<Self, Error>(Error::ToIsNotAfterFrom)
            } else {
                Ok::<Self, Error>(TimeRange { from, to })
            },
    {
        if let Some(fr) = from {
            if let Some(t) = to {
                if !before(&fr, &t) {
                    return Err(Error::ToIsNotAfterFrom);
                }
            }
        }
        Ok(Self { from, to })
    }

    /// Tells whether the point lies in the range, the two ends included.
    pub fn intersects_with(&self, point: Timestamp) -> (inside: bool)
        ensures
            inside == self.holds(point),
    {
        if let Some(fr) = self.from {
            if before(&point, &fr) {
                return false;
            }
        }
        if let Some(to) = self.to {
            if before(&to, &point) {
                return false;
            }
        }
        true
    }

    /// Tells whether the range begins after the point.
    pub fn is_after(&self, point: Timestamp) -> (after: bool)
        ensures
            after == (self.from is Some && is_before(point, self.from->Some_0)),
    {
        if let Some(fr) = self.from {
            if before(&point, &fr) {
                return true;
            }
        }
        false
    }

    /// The day of the point under the point's own offset: from its first instant to the
    /// first instant of the next day. A day whose beginning cannot be held in 64 bits is
    /// `CreatingTimeFailed`; after that, one whose end cannot be held is `AddingTimeFailed`.
    pub fn day_range_of_time(point: &Timestamp) -> (range: Result<Self, Error>)
        ensures
            match range {
                Ok(day) => {
                    &&& i64::MIN <= start_of_day(*point)
                    &&& start_of_day(*point) + SECONDS_PER_DAY <= i64::MAX
                    &&& day.from == Some(
                        Timestamp {
                            unix_seconds: start_of_day(*point) as i64,
                            nanosecond: 0,
                            offset_seconds: point.offset_seconds,
                        },
                    )
                    &&& day.to == Some(
                        Timestamp {
                            unix_seconds: (start_of_day(*point) + SECONDS_PER_DAY) as i64,
                            nanosecond: 0,
                            offset_seconds: point.offset_seconds,
                        },
                    )
                    &&& day.holds(*point)
                },
                Err(error) => if start_of_day(*point) < i64::MIN {
                    error == Error::CreatingTimeFailed
                } else {
                    error == Error::AddingTimeFailed && start_of_day(*point) + SECONDS_PER_DAY
                        > i64::MAX
                },
            },
    {
        let local: i128 = point.unix_seconds as i128 + point.offset_seconds as i128;
        let mut into_day: i128 = local % (SECONDS_PER_DAY as i128);
        if into_day < 0 {
            into_day = into_day + SECONDS_PER_DAY as i128;
        }
        let start: i128 = point.unix_seconds as i128 - into_day;
        let end: i128 = start + SECONDS_PER_DAY as i128;
        if start < i64::MIN as i128 {
            return Err(Error::CreatingTimeFailed);
        }
        if end > i64::MAX as i128 {
            return Err(Error::AddingTimeFailed);
        }
        let fr = Timestamp {
            unix_seconds: start as i64,
            nanosecond: 0,
            offset_seconds: point.offset_seconds,
        };
        let to = Timestamp {
            unix_seconds: end as i64,
            nanosecond: 0,
            offset_seconds: point.offset_seconds,
        };
        Ok(Self { from: Some(fr), to: Some(to) })
    }
}

} // verus!

use vstd::prelude::*;

use super::{counted_from, day_from_today, Date};
use crate::text::{chars_of, digit_run, digits_from, has_prefix, lowercase, lowercased, number};

verus! {

#[derive(Clone, Debug, PartialEq, Eq)]
pub enum Error {
    CouldNotFindAnyPattern,
    /// The payload says which part of the date is out of range.
    CreatingTimeFailed(String),
    AddingTimeFailed,
    ToIsNotAfterFrom,
    /// The payload holds the text that is no date.
    ErrorParsingDate(String),
}

impl Error {
    /// The text of [`Error::to_string`].
    pub open spec fn text(self) -> Seq<char> {
        match self {
            Error::CouldNotFindAnyPattern => "could not find any pattern matching that time input"@,
            Error::CreatingTimeFailed(_) => "could not get time"@,
            Error::AddingTimeFailed => "failed in adding time to day"@,
            Error::ToIsNotAfterFrom => "from must be before after"@,
            Error::ErrorParsingDate(cause) => "got error parsing date: "@ + cause@,
        }
    }

    /// What went wrong, in words for the operator.
    pub fn to_string(&self) -> (text: String)
        ensures
            text@ == self.text(),
    {
        match self {
            Error::CouldNotFindAnyPattern => {
                "could not find any pattern matching that time input".to_owned()
            },
            Error::CreatingTimeFailed(_) => "could not get time".to_owned(),
            Error::AddingTimeFailed => "failed in adding time to day".to_owned(),
            Error::ToIsNotAfterFrom => "from must be before after".to_owned(),
            Error::ErrorParsingDate(cause) => "got error parsing date: ".to_owned().concat(
                cause.as_str(),
            ),
        }
    }
}

/// A span of time, counted in one unit.
#[derive(Clone, Copy, Debug, PartialEq, Eq, Structural)]
pub enum TimeUnit {
    Day(u16),
    Week(u16),
    Month(u16),
    Year(u16),
}

/// What a text says about a date.
#[derive(Clone, Copy, Debug, PartialEq, Eq, Structural)]
pub enum ParserAction {
    /// So long after today.
    TimeFromNow(TimeUnit),
    /// The year, the month (1 to 12) and the day of the month.
    SpecificDate(i32, u8, u8),
}

impl TimeUnit {
    /// The days that the span counts for: a week for 7, a month for 30, a year for 365.
    pub open spec fn spec_days(self) -> int {
        match self {
            TimeUnit::Day(count) => count as int,
            TimeUnit::Week(count) => count * 7,
            TimeUnit::Month(count) => count * 30,
            TimeUnit::Year(count) => count * 365,
        }
    }

    /// The days that the span counts for.
    pub fn days(&self) -> (days: i64)
        ensures
            days == self.spec_days(),
    {
        match self {
            TimeUnit::Day(count) => *count as i64,
            TimeUnit::Week(count) => *count as i64 * 7,
            TimeUnit::Month(count) => *count as i64 * 30,
            TimeUnit::Year(count) => *count as i64 * 365,
        }
    }
}

/// A number of at most 16 bits and the first letter of its unit: `d`, `w`, `m` or `y`.
/// What follows the letter does not matter.
pub open spec fn duration(s: Seq<char>) -> Option<ParserAction> {
    let run = digit_run(s);
    let count = number(s.take(run));
    if run == 0 || count > u16::MAX || run >= s.len() {
        None
    } else if s[run] == 'd' {
        Some(ParserAction::TimeFromNow(TimeUnit::Day(count as u16)))
    } else if s[run] == 'w' {
        Some(ParserAction::TimeFromNow(TimeUnit::Week(count as u16)))
    } else if s[run] == 'm' {
        Some(ParserAction::TimeFromNow(TimeUnit::Month(count as u16)))
    } else if s[run] == 'y' {
        Some(ParserAction::TimeFromNow(TimeUnit::Year(count as u16)))
    } else {
        None
    }
}

/// A text that begins with `tod` means today, one that begins with `tom` tomorrow.
pub open spec fn named_day(s: Seq<char>) -> Option<ParserAction> {
    if "tod"@.is_prefix_of(s) {
        Some(ParserAction::TimeFromNow(TimeUnit::Day(0)))
    } else if "tom"@.is_prefix_of(s) {
        Some(ParserAction::TimeFromNow(TimeUnit::Day(1)))
    } else {
        None
    }
}

/// The words that name a month, each with the month's number, in the order in which they
/// are tried.
pub open spec fn month_words() -> Seq<(Seq<char>, u8)> {
    seq![
        ("10"@, 10u8),
        ("october"@, 10u8),
        ("oct"@, 10u8),
        ("11"@, 11u8),
        ("november"@, 11u8),
        ("nov"@, 11u8),
        ("12"@, 12u8),
        ("december"@, 12u8),
        ("dec"@, 12u8),
        ("01"@, 1u8),
        ("1"@, 1u8),
        ("january"@, 1u8),
        ("jan"@, 1u8),
        ("02"@, 2u8),
        ("2"@, 2u8),
        ("february"@, 2u8),
        ("feb"@, 2u8),
        ("03"@, 3u8),
        ("3"@, 3u8),
        ("march"@, 3u8),
        ("mar"@, 3u8),
        ("04"@, 4u8),
        ("4"@, 4u8),
        ("april"@, 4u8),
        ("apr"@, 4u8),
        ("05"@, 5u8),
        ("5"@, 5u8),
        ("may"@, 5u8),
        ("06"@, 6u8),
        ("6"@, 6u8),
        ("june"@, 6u8),
        ("jun"@, 6u8),
        ("07"@, 7u8),
        ("7"@, 7u8),
        ("july"@, 7u8),
        ("jul"@, 7u8),
        ("08"@, 8u8),
        ("8"@, 8u8),
        ("august"@, 8u8),
        ("aug"@, 8u8),
        ("09"@, 9u8),
        ("9"@, 9u8),
        ("september"@, 9u8),
        ("sep"@, 9u8),
    ]
}

/// The month that the first of the words from position `from` on names with which the text
/// begins, and the length of that word.
pub open spec fn month_from(s: Seq<char>, words: Seq<(Seq<char>, u8)>, from: int) -> Option<(u8, int)>
    decreases words.len() - from,
{
    if from < 0 || from >= words.len() {
        None
    } else if words[from].0.is_prefix_of(s) {
        Some((words[from].1, words[from].0.len() as int))
    } else {
        month_from(s, words, from + 1)
    }
}

/// One of the three characters that may stand between the parts of a date.
pub open spec fn is_separator(c: char) -> bool {
    c == '_' || c == '-' || c == '.'
}

/// The number at the start of the text, with its sign if it has one, where it fits 32
/// bits; and the length of what writes it.
pub open spec fn signed_number(s: Seq<char>) -> Option<(i32, int)> {
    let negative = s.len() > 0 && s[0] == '-';
    let signed = negative || (s.len() > 0 && s[0] == '+');
    let body = if signed {
        s.skip(1)
    } else {
        s
    };
    let run = digit_run(body);
    let size = number(body.take(run));
    let sign_len: int = if signed {
        1
    } else {
        0
    };
    if run == 0 {
        None
    } else if negative && size <= 0x8000_0000 {
        Some(((-size) as i32, sign_len + run))
    } else if !negative && size <= 0x7fff_ffff {
        Some((size as i32, sign_len + run))
    } else {
        None
    }
}

/// A year, a month and a day of the month, with a separator on either side of the month.
/// The day is a number of at most 8 bits; what follows it does not matter.
pub open spec fn full_date(s: Seq<char>) -> Option<ParserAction> {
    match signed_number(s) {
        None => None,
        Some((year, year_len)) => {
            if year_len >= s.len() || !is_separator(s[year_len]) {
                None
            } else {
                match month_from(s.skip(year_len + 1), month_words(), 0) {
                    None => None,
                    Some((month, month_len)) => {
                        let day_at = year_len + 1 + month_len + 1;
                        let day_run = digit_run(s.skip(day_at));
                        let day = number(s.skip(day_at).take(day_run));
                        if day_at > s.len() || !is_separator(s[day_at - 1]) || day_run == 0 || day
                            > u8::MAX {
                            None
                        } else {
                            Some(ParserAction::SpecificDate(year, month, day as u8))
                        }
                    },
                }
            }
        },
    }
}

/// What a text in lower case says about a date: a span from today, a named day, or a date
/// of the calendar, tried in this order.
pub open spec fn date_action(s: Seq<char>) -> Option<ParserAction> {
    if duration(s) is Some {
        duration(s)
    } else if named_day(s) is Some {
        named_day(s)
    } else {
        full_date(s)
    }
}

fn duration_parser(chars: &Vec<char>) -> (action: Option<ParserAction>)
    ensures
        action == duration(chars@),
{
    assert(chars@.skip(0) =~= chars@);
    let read = digits_from(chars, 0, 0xffff);
    assert(chars@.subrange(0, 0 + digit_run(chars@)) =~= chars@.take(digit_run(chars@)));
    match read {
        None => None,
        Some((count, end)) => {
            if end >= chars.len() {
                None
            } else if chars[end] == 'd' {
                Some(ParserAction::TimeFromNow(TimeUnit::Day(count as u16)))
            } else if chars[end] == 'w' {
                Some(ParserAction::TimeFromNow(TimeUnit::Week(count as u16)))
            } else if chars[end] == 'm' {
                Some(ParserAction::TimeFromNow(TimeUnit::Month(count as u16)))
            } else if chars[end] == 'y' {
                Some(ParserAction::TimeFromNow(TimeUnit::Year(count as u16)))
            } else {
                None
            }
        },
    }
}

fn named_duration_to_parser(chars: &Vec<char>) -> (action: Option<ParserAction>)
    ensures
        action == named_day(chars@),
{
    assert(chars@.skip(0) =~= chars@);
    if has_prefix(chars, 0, "tod") {
        Some(ParserAction::TimeFromNow(TimeUnit::Day(0)))
    } else if has_prefix(chars, 0, "tom") {
        Some(ParserAction::TimeFromNow(TimeUnit::Day(1)))
    } else {
        None
    }
}

fn month_table() -> (table: Vec<(&'static str, u8)>)
    ensures
        table@.len() == month_words().len(),
        forall|i: int|
            0 <= i < table@.len() ==> (#[trigger] table@[i]).0@ == month_words()[i].0 && table@[i].1
                == month_words()[i].1,
{
    vec![
        ("10", 10u8),
        ("october", 10u8),
        ("oct", 10u8),
        ("11", 11u8),
        ("november", 11u8),
        ("nov", 11u8),
        ("12", 12u8),
        ("december", 12u8),
        ("dec", 12u8),
        ("01", 1u8),
        ("1", 1u8),
        ("january", 1u8),
        ("jan", 1u8),
        ("02", 2u8),
        ("2", 2u8),
        ("february", 2u8),
        ("feb", 2u8),
        ("03", 3u8),
        ("3", 3u8),
        ("march", 3u8),
        ("mar", 3u8),
        ("04", 4u8),
        ("4", 4u8),
        ("april", 4u8),
        ("apr", 4u8),
        ("05", 5u8),
        ("5", 5u8),
        ("may", 5u8),
        ("06", 6u8),
        ("6", 6u8),
        ("june", 6u8),
        ("jun", 6u8),
        ("07", 7u8),
        ("7", 7u8),
        ("july", 7u8),
        ("jul", 7u8),
        ("08", 8u8),
        ("8", 8u8),
        ("august", 8u8),
        ("aug", 8u8),
        ("09", 9u8),
        ("9", 9u8),
        ("september", 9u8),
        ("sep", 9u8),
    ]
}

fn month_extractor(chars: &Vec<char>, from: usize) -> (found: Option<(u8, usize)>)
    requires
        from <= chars.len(),
    ensures
        match month_from(chars@.skip(from as int), month_words(), 0) {
            Some((month, len)) => found == Some((month, (from + len) as usize)) && 0 <= len
                && from + len <= chars.len(),
            None => found is None,
        },
{
    let table = month_table();
    let ghost s = chars@.skip(from as int);
    let mut i: usize = 0;
    while i < table.len()
        invariant
            i <= table.len(),
            from <= chars.len(),
            s == chars@.skip(from as int),
            table@.len() == month_words().len(),
            forall|k: int|
                0 <= k < table@.len() ==> (#[trigger] table@[k]).0@ == month_words()[k].0
                    && table@[k].1 == month_words()[k].1,
            month_from(s, month_words(), 0) == month_from(s, month_words(), i as int),
        decreases table.len() - i,
    {
        let (word, month) = table[i];
        if has_prefix(chars, from, word) {
            let len = word.unicode_len();
            return Some((month, from + len));
        }
        i = i + 1;
    }
    None
}

fn full_date_parser(chars: &Vec<char>) -> (action: Option<ParserAction>)
    ensures
        action == full_date(chars@),
{
    let negative = chars.len() > 0 && chars[0] == '-';
    let signed = negative || (chars.len() > 0 && chars[0] == '+');
    let start: usize = if signed {
        1
    } else {
        0
    };
    let limit: u64 = if negative {
        0x8000_0000
    } else {
        0x7fff_ffff
    };
    let ghost body = chars@.skip(start as int);
    assert(chars@.skip(0) =~= chars@);
    let read = digits_from(chars, start, limit);
    assert(chars@.subrange(start as int, start + digit_run(body)) =~= body.take(digit_run(body)));
    let (size, year_end) = match read {
        Some(read) => read,
        None => {
            return None;
        },
    };
    let year: i32 = if negative {
        (0 - size as i64) as i32
    } else {
        size as i32
    };
    assert(signed_number(chars@) == Some((year, year_end as int)));
    if year_end >= chars.len() || !(chars[year_end] == '_' || chars[year_end] == '-'
        || chars[year_end] == '.') {
        return None;
    }
    let (month, month_end) = match month_extractor(chars, year_end + 1) {
        Some(found) => found,
        None => {
            return None;
        },
    };
    if month_end >= chars.len() || !(chars[month_end] == '_' || chars[month_end] == '-'
        || chars[month_end] == '.') {
        return None;
    }
    let day_at: usize = month_end + 1;
    let ghost tail = chars@.skip(day_at as int);
    let day = digits_from(chars, day_at, 0xff);
    assert(chars@.subrange(day_at as int, day_at + digit_run(tail)) =~= tail.take(digit_run(tail)));
    match day {
        Some((day, _)) => Some(ParserAction::SpecificDate(year, month, day as u8)),
        None => None,
    }
}

/// The message for a text that is no date.
pub open spec fn failure_text(content: Seq<char>) -> Seq<char> {
    "expected a span such as 3d, today, tomorrow, or a date such as 2023-10-24: "@ + content
}

/// Reads what a text in lower case says about a date. A text that says nothing is
/// `ErrorParsingDate`, with a message that holds the text.
pub fn date_parser(content: &str) -> (action: Result<ParserAction, Error>)
    ensures
        match date_action(content@) {
            Some(found) => action == Ok::<ParserAction, Error>(found),
            None => action is Err && action->Err_0 is ErrorParsingDate
                && action->Err_0->ErrorParsingDate_0@ == failure_text(content@),
        },
{
    let chars = chars_of(content);
    if let Some(action) = duration_parser(&chars) {
        return Ok(action);
    }
    if let Some(action) = named_duration_to_parser(&chars) {
        return Ok(action);
    }
    match full_date_parser(&chars) {
        Some(action) => Ok(action),
        None => Err(
            Error::ErrorParsingDate(
                "expected a span such as 3d, today, tomorrow, or a date such as 2023-10-24: ".to_owned().concat(
                    content,
                ),
            ),
        ),
    }
}

/// The Julian day of a date of the calendar as `Date::from_calendar_date` of the time crate
/// finds it, where there is such a date.
pub uninterp spec fn calendar_julian_day(year: int, month: int, day: int) -> Option<int>;

/// `Month::try_from` and `Date::from_calendar_date` of the time crate. The contract names
/// the day that the crate finds for a year, a month and a day of the month, and claims that
/// it is a date that can be held; where the crate finds none, its message comes back.
#[verifier::external_body]
pub(crate) fn calendar_date(year: i32, month: u8, day: u8) -> (date: Result<Date, String>)
    ensures
        match calendar_julian_day(year as int, month as int, day as int) {
            Some(julian_day) => date is Ok && date->Ok_0.julian_day == julian_day
                && date->Ok_0.is_valid(),
            None => date is Err,
        },
{
    let month = match time::Month::try_from(month) {
        Ok(month) => month,
        Err(error) => return Err(error.to_string()),
    };
    match time::Date::from_calendar_date(year, month, day) {
        Ok(date) => Ok(Date { julian_day: date.to_julian_day() }),
        Err(error) => Err(error.to_string()),
    }
}

/// Reads a date from what the operator wrote, in any mix of upper and lower case: a span
/// from today such as `3d`, `2weeks`, `1month`, `10y`; `today` or `tomorrow`; or a date
/// such as `2023-10-24` or `2023_oct.24`. A span is counted from the day that the clock
/// shows under `offset`.
pub fn parse_date(input: &str, offset: time::UtcOffset) -> (date: Result<Date, Error>)
    ensures
        match date_action(lowercased(input@)) {
            Some(ParserAction::TimeFromNow(span)) => date is Ok && date->Ok_0.is_valid()
                && exists|shown: Date| counted_from(shown, span.spec_days(), date->Ok_0),
            Some(ParserAction::SpecificDate(year, month, day)) => match calendar_julian_day(
                year as int,
                month as int,
                day as int,
            ) {
                Some(julian_day) => date == Ok::<Date, Error>(Date { julian_day: julian_day as i32 }),
                None => date is Err && date->Err_0 is CreatingTimeFailed,
            },
            None => date is Err && date->Err_0 is ErrorParsingDate
                && date->Err_0->ErrorParsingDate_0@ == failure_text(lowercased(input@)),
        },
{
    let lowered = lowercase(input);
    let action = match date_parser(lowered.as_str()) {
        Ok(action) => action,
        Err(error) => {
            return Err(error);
        },
    };
    match action {
        ParserAction::TimeFromNow(duration) => Ok(day_from_today(offset, duration.days())),
        ParserAction::SpecificDate(y, m, d) => match calendar_date(y, m, d) {
            Ok(date) => Ok(date),
            Err(cause) => Err(Error::CreatingTimeFailed(cause)),
        },
    }
}

} // verus!

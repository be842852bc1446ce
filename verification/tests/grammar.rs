//! The two grammars of the library, held against the same grammars written with parser
//! combinators, over inputs put together from fragments.

use nom::branch::alt;
use nom::bytes::complete::{tag, take_while};
use nom::character::complete::{char, not_line_ending, tab};
use nom::combinator::{all_consuming, value};
use nom::sequence::{delimited, preceded, terminated, tuple};
use nom::IResult;
use prmait::tasks::bulk::{action_from_line, Action};
use prmait::timeutils::parser::{date_parser, ParserAction, TimeUnit};

fn no_tab(input: &str) -> IResult<&str, &str> {
    take_while(|c: char| c != '\t')(input)
}

fn line(input: &str) -> Option<(u64, Action)> {
    let action = alt((
        value(Action::Done, tuple((tag("done"), tab, not_line_ending))),
        nom::combinator::map(
            preceded(tuple((tag("aban"), tab, no_tab)), preceded(tab, not_line_ending)),
            |reason: &str| Action::Abandon(Some(reason.to_owned())),
        ),
        value(Action::Abandon(None), tuple((tag("aban"), tab, not_line_ending))),
        value(Action::Ignore, tuple((tag("ignr"), tab, no_tab))),
        value(Action::Backlog, tuple((tag("back"), tab, no_tab))),
        value(Action::ToDo, tuple((tag("todo"), tab, no_tab))),
    ));
    let parsed: IResult<&str, (u64, Action)> =
        all_consuming(tuple((nom::character::complete::u64, preceded(tab, action))))(input);
    parsed.ok().map(|(_, found)| found)
}

#[test]
fn lines_are_read_as_the_combinators_read_them() {
    let numbers = ["", "0", "7", "01", "18446744073709551615", "18446744073709551616", "x", "-1", "1 0", "٣"];
    let gaps = ["\t", " ", "", "\t\t"];
    let actions = ["done", "aban", "ignr", "back", "todo", "nope", "Done", "don", ""];
    let titles = [
        "", "t", "a b", "a\tb", "a\nb", "a\rb", "a\r\nb", "t\tr", "t\t", "t\tr\ts", "t\tr\n",
        "t\tr\rs", "t\tr\r\n", "\n", "\r", "\t", "é☑", "t\n\tr", "t\r\tr", "\tr", "\t\r\n",
    ];
    let mut read = 0;
    for number in numbers {
        for first in gaps {
            for action in actions {
                for second in gaps {
                    for title in titles {
                        let input = format!("{number}{first}{action}{second}{title}");
                        assert_eq!(action_from_line(&input).ok(), line(&input), "{input:?}");
                        read += usize::from(line(&input).is_some());
                    }
                }
            }
        }
    }
    assert!(read > 100);
}

fn unit<'a>(
    long: &'static str,
    short: &'static str,
    letter: &'static str,
    make: fn(u16) -> TimeUnit,
) -> impl FnMut(&'a str) -> IResult<&'a str, ParserAction> {
    nom::combinator::map(
        terminated(nom::character::complete::u16, alt((tag(long), tag(short), tag(letter)))),
        move |count| ParserAction::TimeFromNow(make(count)),
    )
}

fn month(input: &str) -> IResult<&str, u8> {
    let names: [(u8, &[&'static str]); 12] = [
        (10, &["10", "october", "oct"]),
        (11, &["11", "november", "nov"]),
        (12, &["12", "december", "dec"]),
        (1, &["01", "1", "january", "jan"]),
        (2, &["02", "2", "february", "feb"]),
        (3, &["03", "3", "march", "mar"]),
        (4, &["04", "4", "april", "apr"]),
        (5, &["05", "5", "may"]),
        (6, &["06", "6", "june", "jun"]),
        (7, &["07", "7", "july", "jul"]),
        (8, &["08", "8", "august", "aug"]),
        (9, &["09", "9", "september", "sep"]),
    ];
    for (number, words) in names {
        for word in words {
            let found: IResult<&str, &str> = tag(*word)(input);
            if let Ok((rest, _)) = found {
                return Ok((rest, number));
            }
        }
    }
    Err(nom::Err::Error(nom::error::Error::new(input, nom::error::ErrorKind::Tag)))
}

fn date(input: &str) -> Option<ParserAction> {
    let separator = || alt((char('_'), char('-'), char('.')));
    let parsed: IResult<&str, ParserAction> = alt((
        unit("days", "day", "d", TimeUnit::Day),
        unit("weeks", "week", "w", TimeUnit::Week),
        unit("months", "month", "m", TimeUnit::Month),
        unit("years", "year", "y", TimeUnit::Year),
        value(ParserAction::TimeFromNow(TimeUnit::Day(0)), alt((tag("tod"), tag("today")))),
        value(ParserAction::TimeFromNow(TimeUnit::Day(1)), alt((tag("tom"), tag("tomorrow")))),
        nom::combinator::map(
            tuple((
                nom::character::complete::i32,
                delimited(separator(), month, separator()),
                nom::character::complete::u8,
            )),
            |(y, m, d)| ParserAction::SpecificDate(y, m, d),
        ),
    ))(input);
    parsed.ok().map(|(_, found)| found)
}

fn assert_same_date(input: &str) {
    assert_eq!(date_parser(input).ok(), date(input), "{input:?}");
}

#[test]
fn dates_are_read_as_the_combinators_read_them() {
    let years = [
        "", "0", "1993", "-44", "+5", "+", "-", "2147483647", "2147483648", "-2147483648",
        "-2147483649", "007", "65535", "65536", "x", "--1", "+-1", "1 ",
    ];
    let gaps = ["-", "_", ".", "/", "", "--", " "];
    let months = [
        "", "0", "00", "1", "01", "2", "02", "3", "03", "4", "04", "5", "05", "6", "06", "7",
        "07", "8", "08", "9", "09", "10", "11", "12", "13", "19", "100", "jan", "january",
        "janu", "feb", "february", "mar", "march", "apr", "april", "may", "jun", "june", "jul",
        "july", "aug", "august", "sep", "sept", "september", "oct", "october", "nov",
        "november", "dec", "december", "d", "x",
    ];
    let days = ["", "0", "1", "10", "031", "255", "256", "31st", "x", "-1", "1d"];
    let mut read = 0;
    for year in years {
        for first in gaps {
            for month in months {
                for second in gaps {
                    for day in days {
                        let input = format!("{year}{first}{month}{second}{day}");
                        assert_same_date(&input);
                        read += usize::from(date(&input).is_some());
                    }
                }
            }
        }
    }
    assert!(read > 1000);
}

#[test]
fn spans_are_read_as_the_combinators_read_them() {
    let counts = ["", "0", "1", "3", "22", "007", "65535", "65536", "99999999999", "-1", "+1", "x"];
    let units = [
        "", "d", "day", "days", "w", "week", "weeks", "m", "month", "months", "y", "year",
        "years", "s", "dw", "wd", " d", "-", "tod", "today", "tom", "tomorrow", "to", "dx",
    ];
    let tails = ["", "s", " ", "3d", "-01-01"];
    let mut read = 0;
    for count in counts {
        for unit in units {
            for tail in tails {
                let input = format!("{count}{unit}{tail}");
                assert_same_date(&input);
                read += usize::from(date(&input).is_some());
            }
        }
    }
    assert!(read > 100);
}

#[test]
fn short_texts_are_read_as_the_combinators_read_them() {
    let letters = ['1', '0', 'd', 'w', '-', 't', 'o', 'm', '+', '.', '9', 'y'];
    let mut texts = vec![String::new()];
    for _ in 0..4 {
        let mut longer = Vec::new();
        for text in &texts {
            for letter in letters {
                longer.push(format!("{text}{letter}"));
            }
        }
        for text in &longer {
            assert_same_date(text);
        }
        texts = longer;
    }
}

#[test]
fn texts_are_split_into_lines_as_the_standard_library_splits_them() {
    let pieces = ["1\tdone\ta", "2\tignr\tb", "x", "", "3\taban\tc\twhy", "4\ttodo\td\r"];
    let ends = ["\n", "\r\n", "\r", "", "\n\n", "\n\r"];
    for first in pieces {
        for first_end in ends {
            for second in pieces {
                for second_end in ends {
                    let input = format!("{first}{first_end}{second}{second_end}");
                    let expected: Option<Vec<(u64, Action)>> = input.lines().map(line).collect();
                    assert_eq!(
                        prmait::tasks::bulk::multiple_lines(&input).ok(),
                        expected,
                        "{input:?}"
                    );
                }
            }
        }
    }
}

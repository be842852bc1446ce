use vstd::prelude::*;

use super::error::Error;
use super::task::Task;
use crate::text::{
    chars_of, decimal, decimal_text, digit_run, digits_from, find, leading, number,
};

verus! {

/// What a line of a bulk edit asks for.
#[derive(Clone, Debug, PartialEq, Eq, Hash, PartialOrd, Ord)]
pub enum Action {
    Ignore,
    Done,
    ToDo,
    /// With the reason, if the line gives one.
    Abandon(Option<String>),
    Backlog,
}

/// The mathematical content of an [`Action`].
pub enum ActionView {
    Ignore,
    Done,
    ToDo,
    Abandon(Option<Seq<char>>),
    Backlog,
}

impl View for Action {
    type V = ActionView;

    open spec fn view(&self) -> ActionView {
        match self {
            Action::Ignore => ActionView::Ignore,
            Action::Done => ActionView::Done,
            Action::ToDo => ActionView::ToDo,
            Action::Abandon(reason) => ActionView::Abandon(reason.deep_view()),
            Action::Backlog => ActionView::Backlog,
        }
    }
}

/// The text with zeros before it where it has fewer than `width` characters.
pub open spec fn zero_padded(text: Seq<char>, width: nat) -> Seq<char> {
    if text.len() >= width {
        text
    } else {
        Seq::new((width - text.len()) as nat, |i: int| '0') + text
    }
}

/// The line that offers the task at position `index` for editing: the position in three
/// digits, the action `ignr`, and the title, with tabs between them.
pub open spec fn action_line(index: int, title: Seq<char>) -> Seq<char> {
    zero_padded(decimal(index), 3) + "\tignr\t"@ + title + "\n"@
}

/// The lines of the first `n` tasks.
pub open spec fn action_lines(titles: Seq<Seq<char>>, n: int) -> Seq<char>
    decreases n,
{
    if n <= 0 {
        Seq::empty()
    } else {
        action_lines(titles, n - 1) + action_line(n - 1, titles[n - 1])
    }
}

/// The titles of the tasks.
pub open spec fn titles_of(tasks: Seq<Task>) -> Seq<Seq<char>> {
    Seq::new(tasks.len(), |i: int| tasks[i].title@)
}

fn zero_pad(text: String, width: usize) -> (out: String)
    ensures
        out@ == zero_padded(text@, width as nat),
{
    let len = text.as_str().unicode_len();
    let mut zeros = String::new();
    let mut n: usize = len;
    while n < width
        invariant
            len == text@.len(),
            len <= n,
            n <= width || n == len,
            zeros@ == Seq::new((n - len) as nat, |i: int| '0'),
        decreases width - n,
    {
        proof {
            reveal_strlit("0");
        }
        zeros.append("0");
        n = n + 1;
        assert(zeros@ =~= Seq::new((n - len) as nat, |i: int| '0'));
    }
    if len >= width {
        text
    } else {
        zeros.append(text.as_str());
        zeros
    }
}

/// The text that offers the tasks for a bulk edit, one line per task, each with the action
/// `ignr` to begin with.
pub fn form_file_action(tasks: &[Task]) -> (text: String)
    ensures
        text@ == action_lines(titles_of(tasks@), tasks@.len() as int),
{
    let mut text = String::new();
    let mut i: usize = 0;
    while i < tasks.len()
        invariant
            i <= tasks.len(),
            text@ == action_lines(titles_of(tasks@), i as int),
        decreases tasks.len() - i,
    {
        let mut line = zero_pad(decimal_text(i as i128), 3);
        line.append("\tignr\t");
        line.append(tasks[i].title.as_str());
        line.append("\n");
        text.append(line.as_str());
        i = i + 1;
    }
    text
}

/// The text holds no line break: neither a line feed nor a carriage return.
pub open spec fn on_one_line(s: Seq<char>) -> bool {
    leading(s, '\n') == s.len() && leading(s, '\r') == s.len()
}

/// The action that the text behind the number and its tab asks for. The text begins with a
/// word of four letters and a tab; what follows is the title.
/// `done` and `aban` take a title without a line break; behind the title of `aban` a tab and
/// a reason without a line break may follow. `ignr`, `back` and `todo` take a title without
/// a tab.
pub open spec fn parse_action(s: Seq<char>) -> Option<ActionView> {
    let rest = s.skip(5);
    if s.len() < 5 {
        None
    } else if s.take(5) == "done\t"@ {
        if on_one_line(rest) {
            Some(ActionView::Done)
        } else {
            None
        }
    } else if s.take(5) == "aban\t"@ {
        let title = leading(rest, '\t');
        if title < rest.len() {
            if on_one_line(rest.skip(title + 1)) {
                Some(ActionView::Abandon(Some(rest.skip(title + 1))))
            } else {
                None
            }
        } else if on_one_line(rest) {
            Some(ActionView::Abandon(None))
        } else {
            None
        }
    } else if leading(rest, '\t') < rest.len() {
        None
    } else if s.take(5) == "ignr\t"@ {
        Some(ActionView::Ignore)
    } else if s.take(5) == "back\t"@ {
        Some(ActionView::Backlog)
    } else if s.take(5) == "todo\t"@ {
        Some(ActionView::ToDo)
    } else {
        None
    }
}

/// What a line of a bulk edit says: a number in decimal digits that fits 64 bits, a tab,
/// and an action; or nothing, where the line is not of that form.
pub open spec fn parse_line(s: Seq<char>) -> Option<(u64, ActionView)> {
    let digits = digit_run(s);
    if digits == 0 || number(s.take(digits)) > u64::MAX || digits >= s.len() || s[digits] != '\t' {
        None
    } else {
        match parse_action(s.skip(digits + 1)) {
            Some(action) => Some((number(s.take(digits)) as u64, action)),
            None => None,
        }
    }
}

/// The message for a line that is not of the form.
pub open spec fn failure_text(line: Seq<char>) -> Seq<char> {
    "expected a number, a tab, an action, a tab and a title: "@ + line
}

fn is_on_one_line(chars: &Vec<char>, from: usize) -> (plain: bool)
    requires
        from <= chars.len(),
    ensures
        plain == on_one_line(chars@.skip(from as int)),
{
    find(chars, from, '\n') == chars.len() && find(chars, from, '\r') == chars.len()
}

/// Tells whether the five characters from position `from` on are those of `word`.
fn has_word(chars: &Vec<char>, from: usize, word: &str) -> (has: bool)
    requires
        from + 5 <= chars.len(),
        word@.len() == 5,
    ensures
        has == (chars@.skip(from as int).take(5) == word@),
{
    let letters = chars_of(word);
    let mut i: usize = 0;
    while i < 5
        invariant
            i <= 5,
            from + 5 <= chars.len(),
            letters@ == word@,
            letters.len() == 5,
            forall|k: int| 0 <= k < i ==> chars@[from + k] == letters@[k],
        decreases 5 - i,
    {
        if chars[from + i] != letters[i] {
            assert(chars@.skip(from as int).take(5)[i as int] != word@[i as int]);
            return false;
        }
        i = i + 1;
    }
    assert(chars@.skip(from as int).take(5) =~= word@);
    true
}

fn action_from(input: &str, chars: &Vec<char>, from: usize) -> (action: Option<Action>)
    requires
        chars@ == input@,
        from <= chars.len(),
    ensures
        match parse_action(chars@.skip(from as int)) {
            Some(view) => action is Some && action->Some_0@ == view,
            None => action is None,
        },
{
    let ghost s = chars@.skip(from as int);
    if chars.len() - from < 5 {
        return None;
    }
    let body: usize = from + 5;
    proof {
        reveal_strlit("done\t");
        reveal_strlit("aban\t");
        reveal_strlit("ignr\t");
        reveal_strlit("back\t");
        reveal_strlit("todo\t");
        assert(s.skip(5) =~= chars@.skip(body as int));
    }
    if has_word(chars, from, "done\t") {
        if is_on_one_line(chars, body) {
            Some(Action::Done)
        } else {
            None
        }
    } else if has_word(chars, from, "aban\t") {
        let tab = find(chars, body, '\t');
        if tab < chars.len() {
            proof {
                assert(s.skip(5).skip(tab - body + 1) =~= chars@.skip(tab + 1));
                assert(chars@.skip(tab + 1) =~= input@.subrange(tab + 1, chars.len() as int));
            }
            if is_on_one_line(chars, tab + 1) {
                let reason = input.substring_char(tab + 1, chars.len()).to_owned();
                Some(Action::Abandon(Some(reason)))
            } else {
                None
            }
        } else if is_on_one_line(chars, body) {
            Some(Action::Abandon(None))
        } else {
            None
        }
    } else if find(chars, body, '\t') < chars.len() {
        None
    } else if has_word(chars, from, "ignr\t") {
        Some(Action::Ignore)
    } else if has_word(chars, from, "back\t") {
        Some(Action::Backlog)
    } else if has_word(chars, from, "todo\t") {
        Some(Action::ToDo)
    } else {
        None
    }
}

fn failure(input: &str) -> (error: Error)
    ensures
        error is ParsingLineFailed,
        error->ParsingLineFailed_0@ == failure_text(input@),
{
    Error::ParsingLineFailed(
        Box::new(
            "expected a number, a tab, an action, a tab and a title: ".to_owned().concat(input),
        ),
    )
}

/// Reads one line of a bulk edit. A line that is not of the form is `ParsingLineFailed`,
/// with a message that holds the line.
pub fn action_from_line(input: &str) -> (parsed: Result<(u64, Action), Error>)
    ensures
        match parse_line(input@) {
            Some((number, action)) => parsed is Ok && parsed->Ok_0.0 == number
                && parsed->Ok_0.1@ == action,
            None => parsed is Err && parsed->Err_0 is ParsingLineFailed
                && parsed->Err_0->ParsingLineFailed_0@ == failure_text(input@),
        },
{
    let chars = chars_of(input);
    assert(chars@.skip(0) =~= chars@);
    let read = digits_from(&chars, 0, u64::MAX);
    assert(chars@.subrange(0, 0 + digit_run(chars@)) =~= chars@.take(digit_run(chars@)));
    let (value, digits) = match read {
        Some(read) => read,
        None => {
            return Err(failure(input));
        },
    };
    if digits >= chars.len() || chars[digits] != '\t' {
        return Err(failure(input));
    }
    match action_from(input, &chars, digits + 1) {
        Some(action) => Ok((value, action)),
        None => Err(failure(input)),
    }
}

/// A line as it stands before its line feed: without the carriage return that may end it.
pub open spec fn without_return(line: Seq<char>) -> Seq<char> {
    if line.len() > 0 && line.last() == '\r' {
        line.drop_last()
    } else {
        line
    }
}

/// The lines of a text. A line ends with a line feed, before which a carriage return may
/// stand; neither belongs to the line. What follows the last line feed is a line of its
/// own unless it is empty.
pub open spec fn lines_of(s: Seq<char>) -> Seq<Seq<char>>
    decreases s.len(),
{
    let n = leading(s, '\n');
    if s.len() == 0 {
        Seq::empty()
    } else if n < 0 || n >= s.len() {
        seq![s]
    } else {
        seq![without_return(s.take(n))] + lines_of(s.skip(n + 1))
    }
}

/// The lines before position `line` are all of the form.
pub open spec fn all_parse(lines: Seq<Seq<char>>, line: int) -> bool {
    forall|i: int| 0 <= i < line ==> (#[trigger] parse_line(lines[i])) is Some
}

/// Reads the lines of a bulk edit, in order. The first line that is not of the form ends
/// the reading with its `ParsingLineFailed`.
pub fn multiple_lines(input: &str) -> (parsed: Result<Vec<(u64, Action)>, Error>)
    ensures
        ({
            let lines = lines_of(input@);
            &&& all_parse(lines, lines.len() as int) ==> parsed is Ok && parsed->Ok_0@.len()
                == lines.len() && forall|i: int|
                0 <= i < lines.len() ==> (#[trigger] parsed->Ok_0@[i]).0 == parse_line(
                    lines[i],
                )->Some_0.0 && parsed->Ok_0@[i].1@ == parse_line(lines[i])->Some_0.1
            &&& forall|bad: int|
                0 <= bad < lines.len() && all_parse(lines, bad) && parse_line(lines[bad]) is None
                    ==> parsed is Err && parsed->Err_0 is ParsingLineFailed
                    && parsed->Err_0->ParsingLineFailed_0@ == failure_text(#[trigger] lines[bad])
        }),
{
    let chars = chars_of(input);
    let ghost lines = lines_of(input@);
    let mut actions: Vec<(u64, Action)> = Vec::new();
    let mut start: usize = 0;
    assert(chars@.skip(0) =~= chars@);
    while start < chars.len()
        invariant
            start <= chars.len(),
            chars@ == input@,
            lines == lines_of(input@),
            actions@.len() <= lines.len(),
            lines.skip(actions@.len() as int) == lines_of(chars@.skip(start as int)),
            forall|i: int|
                0 <= i < actions@.len() ==> parse_line(#[trigger] lines[i]) is Some && (
                actions@[i]).0 == parse_line(lines[i])->Some_0.0 && actions@[i].1@ == parse_line(
                    lines[i],
                )->Some_0.1,
        decreases chars.len() - start,
    {
        let ghost rest = chars@.skip(start as int);
        let ghost done = actions@.len() as int;
        let feed = find(&chars, start, '\n');
        let (end, next) = if feed >= chars.len() {
            (chars.len(), chars.len())
        } else if feed > start && chars[feed - 1] == '\r' {
            (feed - 1, feed + 1)
        } else {
            (feed, feed + 1)
        };
        let line = input.substring_char(start, end);
        proof {
            assert(rest.len() > 0);
            assert(leading(rest, '\n') == feed - start);
            if feed >= chars.len() {
                assert(rest =~= input@.subrange(start as int, end as int));
                assert(lines_of(rest) =~= seq![rest]);
                assert(chars@.skip(next as int) =~= Seq::<char>::empty());
            } else {
                assert(rest.skip(feed - start + 1) =~= chars@.skip(feed + 1));
                assert(rest.take(feed - start) =~= chars@.subrange(start as int, feed as int));
                assert(without_return(rest.take(feed - start)) =~= input@.subrange(
                    start as int,
                    end as int,
                ));
            }
            assert(lines_of(rest).len() >= 1);
            assert(lines_of(rest)[0] == line@);
            assert(lines.skip(done).len() >= 1);
            assert(lines.skip(done)[0] == lines[done]);
            assert(lines_of(rest).skip(1) =~= lines_of(chars@.skip(next as int)));
            assert(lines.skip(done).skip(1) =~= lines.skip(done + 1));
        }
        match action_from_line(line) {
            Ok(action) => {
                actions.push(action);
            },
            Err(error) => {
                proof {
                    assert(all_parse(lines, done));
                    assert forall|bad: int|
                        0 <= bad < lines.len() && all_parse(lines, bad) && parse_line(
                            lines[bad],
                        ) is None implies bad == done by {
                        if bad < done {
                            assert(parse_line(lines[bad]) is Some);
                        }
                        if bad > done {
                            assert(parse_line(lines[done]) is Some);
                        }
                    }
                }
                return Err(error);
            },
        }
        start = next;
    }
    proof {
        assert(chars@.skip(chars.len() as int) =~= Seq::<char>::empty());
        assert(lines.skip(actions@.len() as int).len() == 0);
    }
    Ok(actions)
}

} // verus!

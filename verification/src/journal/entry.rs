use std::cmp::Ordering;
use std::sync::Arc;
use vstd::prelude::*;

use super::error::Error;
use crate::style::{bold, bold_text, dimmed, dimmed_text, italic, italic_text};
use crate::timeutils::Timestamp;

verus! {

/// One entry of the journal.
#[derive(Clone, Debug, PartialEq, Eq, Hash)]
pub struct Entry {
    pub at: Timestamp,
    pub body: Arc<String>,
    pub tag: Vec<String>,
    pub mood: Mood,
    pub people: Vec<String>,
}

#[derive(Clone, Copy, Debug, PartialEq, Eq, Hash, PartialOrd, Ord, Structural)]
pub enum Mood {
    Good,
    Bad,
    Neutral,
}

impl Default for Mood {
    fn default() -> (mood: Self)
        ensures
            mood == Mood::Neutral,
    {
        Mood::Neutral
    }
}

impl Mood {
    /// The name of a mood.
    pub open spec fn name(self) -> Seq<char> {
        match self {
            Mood::Good => "Good"@,
            Mood::Bad => "Bad"@,
            Mood::Neutral => "Neutral"@,
        }
    }

    /// The name of the mood.
    pub fn to_string(&self) -> (name: String)
        ensures
            name@ == self.name(),
    {
        match self {
            Mood::Good => "Good".to_owned(),
            Mood::Bad => "Bad".to_owned(),
            Mood::Neutral => "Neutral".to_owned(),
        }
    }
}

/// The mathematical content of an [`Entry`].
pub struct EntryView {
    pub at: Timestamp,
    pub body: Seq<char>,
    pub tag: Seq<Seq<char>>,
    pub mood: Mood,
    pub people: Seq<Seq<char>>,
}

impl View for Entry {
    type V = EntryView;

    open spec fn view(&self) -> EntryView {
        EntryView {
            at: self.at,
            body: self.body@,
            tag: self.tag.deep_view(),
            mood: self.mood,
            people: self.people.deep_view(),
        }
    }
}

impl DeepView for Entry {
    type V = EntryView;

    open spec fn deep_view(&self) -> EntryView {
        self@
    }
}

/// Entries are ordered by their time alone: by the instant, whatever the offset.
impl PartialOrd for Entry {
    fn partial_cmp(&self, other: &Self) -> (order: Option<Ordering>) {
        if self.at.unix_seconds < other.at.unix_seconds {
            Some(Ordering::Less)
        } else if self.at.unix_seconds > other.at.unix_seconds {
            Some(Ordering::Greater)
        } else if self.at.nanosecond < other.at.nanosecond {
            Some(Ordering::Less)
        } else if self.at.nanosecond > other.at.nanosecond {
            Some(Ordering::Greater)
        } else {
            Some(Ordering::Equal)
        }
    }
}

impl vstd::std_specs::cmp::PartialOrdSpecImpl for Entry {
    open spec fn obeys_partial_cmp_spec() -> bool {
        true
    }

    open spec fn partial_cmp_spec(&self, other: &Self) -> Option<Ordering> {
        if self.at.unix_seconds < other.at.unix_seconds {
            Some(Ordering::Less)
        } else if self.at.unix_seconds > other.at.unix_seconds {
            Some(Ordering::Greater)
        } else if self.at.nanosecond < other.at.nanosecond {
            Some(Ordering::Less)
        } else if self.at.nanosecond > other.at.nanosecond {
            Some(Ordering::Greater)
        } else {
            Some(Ordering::Equal)
        }
    }
}

/// The tags in a row, each in italics behind a `#` and followed by a space.
pub open spec fn tag_row(tags: Seq<Seq<char>>) -> Seq<char>
    decreases tags.len(),
{
    if tags.len() == 0 {
        Seq::empty()
    } else {
        tag_row(tags.drop_last()) + "#"@ + italic_text(tags.last()) + " "@
    }
}

/// An entry as the terminal shows it: the date dimmed, the body in bold, then the tags.
pub open spec fn pretty_text(date: Seq<char>, entry: EntryView) -> Seq<char> {
    dimmed_text(date) + "\n"@ + bold_text(entry.body) + "\n"@ + tag_row(entry.tag)
}

impl Entry {
    /// Renders the entry for the terminal. `date` is what formatting the entry's time for
    /// display gave: the text, or the formatter's message, which comes back as
    /// `CouldNotFormatToFileName`.
    pub fn pretty_formated(&self, date: Result<String, String>) -> (pretty: Result<String, Error>)
        ensures
            match date {
                Ok(text) => pretty is Ok && pretty->Ok_0@ == pretty_text(text@, self@),
                Err(cause) => pretty is Err && pretty->Err_0 is CouldNotFormatToFileName
                    && pretty->Err_0->CouldNotFormatToFileName_0@ == cause@,
            },
    {
        let date = match date {
            Ok(text) => text,
            Err(cause) => {
                return Err(Error::CouldNotFormatToFileName(cause));
            },
        };
        let mut tags = String::new();
        let mut i: usize = 0;
        while i < self.tag.len()
            invariant
                i <= self.tag.len(),
                tags@ == tag_row(self.tag.deep_view().take(i as int)),
            decreases self.tag.len() - i,
        {
            tags.append("#");
            tags.append(italic(self.tag[i].as_str()).as_str());
            tags.append(" ");
            i = i + 1;
            assert(self.tag.deep_view().take(i as int).drop_last() =~= self.tag.deep_view().take(
                i - 1,
            ));
        }
        assert(self.tag.deep_view().take(self.tag.len() as int) =~= self.tag.deep_view());
        let mut pretty = dimmed(date.as_str());
        pretty.append("\n");
        pretty.append(bold(self.body.as_str()).as_str());
        pretty.append("\n");
        pretty.append(tags.as_str());
        Ok(pretty)
    }
}

} // verus!

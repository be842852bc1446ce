use vstd::prelude::*;
use vstd::string::StringSliceAdditionalSpecFns;
use vstd::utf8::{decode_utf8, is_char_boundary};

use super::entry::{Entry, EntryView};
use super::error::Error;
use crate::files::{file_name, join_path, joined_path, path_file_name};
use crate::text::push_text;

verus! {

/// The entries of a journal directory, oldest first.
#[derive(Clone, Debug, PartialEq, Eq, Hash)]
pub struct Book {
    pub entries: Vec<EntryDescription>,
    pub location: String,
}

/// An entry with the name of the file that holds it.
#[derive(Clone, Debug, PartialEq, Eq, Hash)]
pub struct EntryDescription {
    pub entry: Entry,
    pub file_name: String,
}

/// The mathematical content of an [`EntryDescription`].
pub struct EntryDescriptionView {
    pub entry: EntryView,
    pub file_name: Seq<char>,
}

/// The mathematical content of a [`Book`].
pub struct BookView {
    pub entries: Seq<EntryDescriptionView>,
    pub location: Seq<char>,
}

impl View for EntryDescription {
    type V = EntryDescriptionView;

    open spec fn view(&self) -> EntryDescriptionView {
        EntryDescriptionView { entry: self.entry@, file_name: self.file_name@ }
    }
}

impl DeepView for EntryDescription {
    type V = EntryDescriptionView;

    open spec fn deep_view(&self) -> EntryDescriptionView {
        self@
    }
}

impl View for Book {
    type V = BookView;

    open spec fn view(&self) -> BookView {
        BookView { entries: self.entries.deep_view(), location: self.location@ }
    }
}

impl EntryDescription {
    /// The entry that was read from the file at `path`, with the name of that file. A path
    /// without a final component is `IsNotAFile`.
    pub fn new(entry: Entry, path: &str) -> (description: Result<EntryDescription, Error>)
        ensures
            match path_file_name(path@) {
                Some(name) => description is Ok && description->Ok_0.entry == entry
                    && description->Ok_0.file_name@ == name,
                None => description is Err && description->Err_0 is IsNotAFile,
            },
    {
        match file_name(path) {
            Some(file_name) => Ok(EntryDescription { entry, file_name }),
            None => Err(Error::IsNotAFile),
        }
    }
}

/// The text of `body` up to byte `truncate_at` of its UTF-8 form; all of it where it is no
/// longer than that.
pub open spec fn truncated(body: Seq<char>, truncate_at: int) -> Seq<char> {
    let bytes = vstd::utf8::encode_utf8(body);
    if truncate_at >= bytes.len() {
        body
    } else {
        decode_utf8(bytes.subrange(0, truncate_at))
    }
}

/// A body can be cut at byte `truncate_at`: the cut falls between two characters, or
/// behind the last one.
pub open spec fn can_truncate(body: Seq<char>, truncate_at: int) -> bool {
    let bytes = vstd::utf8::encode_utf8(body);
    truncate_at >= bytes.len() || is_char_boundary(bytes, truncate_at)
}

/// The line that stands for an entry in a choice list.
pub open spec fn truncated_line(entry: EntryDescriptionView, truncate_at: int) -> Seq<char> {
    entry.file_name + " -> "@ + truncated(entry.entry.body, truncate_at) + " ... "@
}

fn truncate(body: &str, truncate_at: usize) -> (cut: &str)
    requires
        can_truncate(body@, truncate_at as int),
    ensures
        cut@ == truncated(body@, truncate_at as int),
{
    if truncate_at >= body.as_bytes().len() {
        body
    } else {
        let (cut, _) = body.split_at(truncate_at);
        proof {
            vstd::utf8::encode_utf8_decode_utf8(cut@);
        }
        cut
    }
}

impl Book {
    /// The paths that [`Book::files`] gives: each entry's file name under the location.
    pub open spec fn file_paths(self) -> Seq<Seq<char>> {
        Seq::new(
            self.entries@.len(),
            |i: int| joined_path(self.location@, self.entries@[i].file_name@),
        )
    }

    /// The paths of the entries' files, in the order of the entries.
    #[must_use]
    pub fn files(&self) -> (paths: Vec<String>)
        ensures
            paths.deep_view() == self.file_paths(),
    {
        let mut paths: Vec<String> = Vec::new();
        let mut i: usize = 0;
        while i < self.entries.len()
            invariant
                i <= self.entries.len(),
                paths.deep_view() == self.file_paths().take(i as int),
            decreases self.entries.len() - i,
        {
            push_text(
                &mut paths,
                join_path(self.location.as_str(), self.entries[i].file_name.as_str()),
            );
            i = i + 1;
            assert(paths.deep_view() =~= self.file_paths().take(i as int));
        }
        assert(self.file_paths().take(self.entries.len() as int) =~= self.file_paths());
        paths
    }

    /// One line per entry, for a choice list: the file name, an arrow, and the body cut at
    /// byte `truncate_at`. The cut must not fall inside a character of any body.
    #[must_use]
    pub fn truncated_form(&self, truncate_at: usize) -> (lines: Vec<String>)
        requires
            forall|i: int|
                0 <= i < self@.entries.len() ==> can_truncate(
                    (#[trigger] self@.entries[i]).entry.body,
                    truncate_at as int,
                ),
        ensures
            lines.deep_view() == Seq::new(
                self@.entries.len(),
                |i: int| truncated_line(self@.entries[i], truncate_at as int),
            ),
    {
        let ghost expected = Seq::new(
            self@.entries.len(),
            |i: int| truncated_line(self@.entries[i], truncate_at as int),
        );
        let mut lines: Vec<String> = Vec::new();
        let mut i: usize = 0;
        while i < self.entries.len()
            invariant
                i <= self.entries.len(),
                expected == Seq::new(
                    self@.entries.len(),
                    |i: int| truncated_line(self@.entries[i], truncate_at as int),
                ),
                forall|i: int|
                    0 <= i < self@.entries.len() ==> can_truncate(
                        (#[trigger] self@.entries[i]).entry.body,
                        truncate_at as int,
                    ),
                lines.deep_view() == expected.take(i as int),
            decreases self.entries.len() - i,
        {
            let ent = &self.entries[i];
            assert(ent@ == self@.entries[i as int]);
            let truncated_body = truncate(ent.entry.body.as_str(), truncate_at);
            let mut line = ent.file_name.clone();
            line.append(" -> ");
            line.append(truncated_body);
            line.append(" ... ");
            push_text(&mut lines, line);
            i = i + 1;
            assert(lines.deep_view() =~= expected.take(i as int));
        }
        assert(expected.take(self.entries.len() as int) =~= expected);
        lines
    }
}

impl vstd::std_specs::convert::FromSpecImpl<(Vec<EntryDescription>, String)> for Book {
    open spec fn obeys_from_spec() -> bool {
        true
    }

    open spec fn from_spec(parts: (Vec<EntryDescription>, String)) -> Book {
        Book { entries: parts.0, location: parts.1 }
    }
}

impl From<(Vec<EntryDescription>, String)> for Book {
    fn from(parts: (Vec<EntryDescription>, String)) -> (book: Self)
        ensures
            book.entries == parts.0,
            book.location == parts.1,
    {
        Book { entries: parts.0, location: parts.1 }
    }
}

} // verus!

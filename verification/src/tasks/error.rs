use vstd::prelude::*;

use super::tasklist::{TaskDescription, TaskDescriptionView};
use crate::text::{decimal, decimal_text};
use crate::git;

verus! {

#[derive(Clone, Debug, PartialEq, Eq)]
pub enum Error {
    EveryTaskShouldHaveAtLeastOneState,
    /// The payload is the formatter's message.
    CouldNotFormatToFileName(String),
    /// The payload is the parser's message.
    CouldNotParseTimeFormatDescription(String),
    /// The payload is the system's message.
    DirCouldNotBeCreated(String),
    TaskFileAlreadyExists,
    /// The serializer's message, then the name of the file.
    FileCouldNotSerializeEntryIntoJson(String, String),
    /// The payload is the system's message.
    FileCouldNotBeWrittenTo(String),
    /// The payload is the system's message.
    DirCouldNotBeRead(String),
    /// The parser's message, then the text that it was given.
    FileCouldNotDeserializeEntryFromJson(String, String),
    /// The payload is the system's message.
    FileCouldNotBeRead(String),
    /// All the tasks that the identifier matched.
    MoreThanOneTaskWasFound(Box<Vec<TaskDescription>>),
    NoTasksFound,
    GitError(git::Error),
    FileNameHasInvalidCharacters,
    IsNotAFile,
    /// The payload says where the line departs from the grammar.
    ParsingLineFailed(Box<String>),
}

/// The ids of the tasks, with a comma and a space between two of them.
pub open spec fn id_list(tasks: Seq<TaskDescriptionView>) -> Seq<char>
    decreases tasks.len(),
{
    if tasks.len() == 0 {
        Seq::empty()
    } else if tasks.len() == 1 {
        decimal(tasks[0].task.id)
    } else {
        id_list(tasks.drop_last()) + ", "@ + decimal(tasks.last().task.id)
    }
}

fn ids_of(tasks: &Vec<TaskDescription>) -> (list: String)
    ensures
        list@ == id_list(tasks.deep_view()),
{
    let mut list = String::new();
    let mut i: usize = 0;
    while i < tasks.len()
        invariant
            i <= tasks.len(),
            list@ == id_list(tasks.deep_view().take(i as int)),
        decreases tasks.len() - i,
    {
        if i > 0 {
            list.append(", ");
        }
        list.append(decimal_text(tasks[i].task.id as i128).as_str());
        i = i + 1;
        assert(tasks.deep_view().take(i as int).drop_last() =~= tasks.deep_view().take(i - 1));
    }
    assert(tasks.deep_view().take(tasks.len() as int) =~= tasks.deep_view());
    list
}

impl Error {
    /// The text of [`Error::to_string`].
    pub open spec fn text(self) -> Seq<char> {
        match self {
            Error::EveryTaskShouldHaveAtLeastOneState => "every task should have at least one state"@,
            Error::CouldNotFormatToFileName(cause) => "could not format to file name:"@ + cause@,
            Error::CouldNotParseTimeFormatDescription(cause) => "invalid time format for file name:"@
                + cause@,
            Error::DirCouldNotBeCreated(_) => "directory could not be created"@,
            Error::TaskFileAlreadyExists => "task with that name already exist"@,
            Error::FileCouldNotSerializeEntryIntoJson(_, _) => "file could not be serialized"@,
            Error::FileCouldNotBeWrittenTo(_) => "file could not written to"@,
            Error::DirCouldNotBeRead(_) => "directory could not be read"@,
            Error::FileCouldNotDeserializeEntryFromJson(cause, entry) => "file cannot deserialize entry "@
                + entry@ + " from json string: "@ + cause@,
            Error::FileCouldNotBeRead(cause) => "file cannot be read: "@ + cause@,
            Error::MoreThanOneTaskWasFound(tasks) => "more than one task with that ID was found: ["@
                + id_list(tasks.deep_view()) + "]"@,
            Error::NoTasksFound => "no tasks with that identifier was found"@,
            Error::GitError(cause) => "got error from running git command: "@ + cause.text(),
            Error::FileNameHasInvalidCharacters => "file name has invalid characters"@,
            Error::IsNotAFile => "the path is not a file"@,
            Error::ParsingLineFailed(cause) => "could not read the line: "@ + cause@,
        }
    }

    /// What went wrong, in words for the operator.
    pub fn to_string(&self) -> (text: String)
        ensures
            text@ == self.text(),
    {
        match self {
            Error::EveryTaskShouldHaveAtLeastOneState => {
                "every task should have at least one state".to_owned()
            },
            Error::CouldNotFormatToFileName(cause) => "could not format to file name:".to_owned().concat(
                cause.as_str(),
            ),
            Error::CouldNotParseTimeFormatDescription(cause) => {
                "invalid time format for file name:".to_owned().concat(cause.as_str())
            },
            Error::DirCouldNotBeCreated(_) => "directory could not be created".to_owned(),
            Error::TaskFileAlreadyExists => "task with that name already exist".to_owned(),
            Error::FileCouldNotSerializeEntryIntoJson(_, _) => "file could not be serialized".to_owned(),
            Error::FileCouldNotBeWrittenTo(_) => "file could not written to".to_owned(),
            Error::DirCouldNotBeRead(_) => "directory could not be read".to_owned(),
            Error::FileCouldNotDeserializeEntryFromJson(cause, entry) => {
                let mut text = "file cannot deserialize entry ".to_owned();
                text.append(entry.as_str());
                text.append(" from json string: ");
                text.append(cause.as_str());
                text
            },
            Error::FileCouldNotBeRead(cause) => "file cannot be read: ".to_owned().concat(
                cause.as_str(),
            ),
            Error::MoreThanOneTaskWasFound(tasks) => {
                let mut text = "more than one task with that ID was found: [".to_owned();
                text.append(ids_of(tasks).as_str());
                text.append("]");
                text
            },
            Error::NoTasksFound => "no tasks with that identifier was found".to_owned(),
            Error::GitError(cause) => "got error from running git command: ".to_owned().concat(
                cause.to_string().as_str(),
            ),
            Error::FileNameHasInvalidCharacters => "file name has invalid characters".to_owned(),
            Error::IsNotAFile => "the path is not a file".to_owned(),
            Error::ParsingLineFailed(cause) => "could not read the line: ".to_owned().concat(
                cause.as_str(),
            ),
        }
    }
}

} // verus!

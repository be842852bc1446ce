use vstd::prelude::*;

use crate::git;

verus! {

#[derive(Debug, PartialEq, Eq)]
pub enum Error {
    /// The payload is the formatter's message.
    CouldNotFormatToFileName(String),
    /// The payload is the parser's message.
    CouldNotParseTimeFormatDescription(String),
    /// The payload is the system's message.
    JournalDirCouldNotBeCreated(String),
    JournalEntryFileAlreadyExists,
    /// The serializer's message, then the name of the file.
    FileCouldNotSerializeEntryIntoJson(String, String),
    /// The parser's message, then the text that it was given.
    FileCouldNotDeserializeEntryFromJson(String, String),
    /// The failure underneath, then the name of the file.
    CouldNotDeserializeEntryFromJson(Box<Error>, String),
    /// The payload is the system's message.
    FileCouldNotBeWrittenTo(String),
    /// The payload is the system's message.
    DirCouldNotBeRead(String),
    /// The payload is the system's message.
    FileCouldNotBeRead(String),
    /// The payload is the system's message.
    FileCouldNotBeDeleted(String),
    NoEntries,
    /// The payload is the prompt's message.
    DialoguerError(String),
    EntryCouldNotBeFound,
    GitError(git::Error),
    FileNameHasInvalidCharacters,
    IsNotAFile,
}

impl Error {
    /// The text of [`Error::to_string`].
    pub open spec fn text(self) -> Seq<char>
        decreases self,
    {
        match self {
            Error::CouldNotFormatToFileName(cause) => "could not format to file name:"@ + cause@,
            Error::CouldNotParseTimeFormatDescription(cause) => "invalid time format for file name:"@
                + cause@,
            Error::JournalDirCouldNotBeCreated(_) => "could not create journal directory"@,
            Error::JournalEntryFileAlreadyExists => "could not create journal directory"@,
            Error::FileCouldNotSerializeEntryIntoJson(cause, entry) => "could serialize entry "@
                + entry@ + " to json: "@ + cause@,
            Error::FileCouldNotDeserializeEntryFromJson(cause, entry) => "could deserialize entry "@
                + entry@ + " from json: "@ + cause@,
            Error::CouldNotDeserializeEntryFromJson(cause, entry) => "could deserialize entry "@
                + entry@ + " from json: "@ + cause.text(),
            Error::FileCouldNotBeWrittenTo(cause) => "could not write entry to file: "@ + cause@,
            Error::DirCouldNotBeRead(cause) => "could not read directory: "@ + cause@,
            Error::FileCouldNotBeRead(cause) => "file content could not be read: "@ + cause@,
            Error::FileCouldNotBeDeleted(cause) => "deleting file, failed: "@ + cause@,
            Error::NoEntries => "there is entry to be found"@,
            Error::DialoguerError(cause) => "interactive tools failed: "@ + cause@,
            Error::EntryCouldNotBeFound => "entry could not be found"@,
            Error::GitError(cause) => "got error from running git command: "@ + cause.text(),
            Error::FileNameHasInvalidCharacters => "file name has invalid characters"@,
            Error::IsNotAFile => "the path is not a file"@,
        }
    }

    /// What went wrong, in words for the operator.
    pub fn to_string(&self) -> (text: String)
        ensures
            text@ == self.text(),
        decreases self,
    {
        match self {
            Error::CouldNotFormatToFileName(cause) => "could not format to file name:".to_owned().concat(
                cause.as_str(),
            ),
            Error::CouldNotParseTimeFormatDescription(cause) => {
                "invalid time format for file name:".to_owned().concat(cause.as_str())
            },
            Error::JournalDirCouldNotBeCreated(_) => "could not create journal directory".to_owned(),
            Error::JournalEntryFileAlreadyExists => "could not create journal directory".to_owned(),
            Error::FileCouldNotSerializeEntryIntoJson(cause, entry) => {
                about_entry("could serialize entry ", entry, " to json: ", cause.as_str())
            },
            Error::FileCouldNotDeserializeEntryFromJson(cause, entry) => {
                about_entry("could deserialize entry ", entry, " from json: ", cause.as_str())
            },
            Error::CouldNotDeserializeEntryFromJson(cause, entry) => {
                about_entry(
                    "could deserialize entry ",
                    entry,
                    " from json: ",
                    cause.to_string().as_str(),
                )
            },
            Error::FileCouldNotBeWrittenTo(cause) => "could not write entry to file: ".to_owned().concat(
                cause.as_str(),
            ),
            Error::DirCouldNotBeRead(cause) => "could not read directory: ".to_owned().concat(
                cause.as_str(),
            ),
            Error::FileCouldNotBeRead(cause) => "file content could not be read: ".to_owned().concat(
                cause.as_str(),
            ),
            Error::FileCouldNotBeDeleted(cause) => "deleting file, failed: ".to_owned().concat(
                cause.as_str(),
            ),
            Error::NoEntries => "there is entry to be found".to_owned(),
            Error::DialoguerError(cause) => "interactive tools failed: ".to_owned().concat(
                cause.as_str(),
            ),
            Error::EntryCouldNotBeFound => "entry could not be found".to_owned(),
            Error::GitError(cause) => "got error from running git command: ".to_owned().concat(
                cause.to_string().as_str(),
            ),
            Error::FileNameHasInvalidCharacters => "file name has invalid characters".to_owned(),
            Error::IsNotAFile => "the path is not a file".to_owned(),
        }
    }
}

fn about_entry(before: &str, entry: &String, between: &str, cause: &str) -> (text: String)
    ensures
        text@ == before@ + entry@ + between@ + cause@,
{
    let mut text = before.to_owned();
    text.append(entry.as_str());
    text.append(between);
    text.append(cause);
    text
}

} // verus!

use vstd::prelude::*;

use crate::journal::entry::Mood;
use crate::text::{split_words, words};

pub mod arguments;
pub mod config_file;

pub use arguments::{Commands, TaskCommands, TaskListCommand};

verus! {

/// What the journal can be asked to do.
#[derive(Clone, Debug, PartialEq, Eq, Hash)]
pub enum JournalCommands {
    New { entry: String, tag: Vec<String>, mood: Mood, people: Vec<String> },
    List,
    Edit(JournalEditCommands),
}

/// Which entries to open in the editor.
#[derive(Clone, Debug, PartialEq, Eq, Hash, PartialOrd, Ord)]
pub enum JournalEditCommands {
    /// Only the last entry.
    Last,
    /// Every entry.
    All,
    /// The entries whose file name holds the text.
    Specific { item: String },
}

#[derive(Clone, Debug, PartialEq, Eq, Hash, PartialOrd, Ord)]
pub struct Configs {
    /// The offset from UTC under which times are taken: hours, minutes and seconds.
    pub time_offset: Option<(i8, i8, i8)>,
    pub journal: Option<JournalConfigs>,
    pub task: Option<TaskConfigs>,
}

#[derive(Clone, Debug, PartialEq, Eq)]
pub enum ConfigErr {
    /// The payload is the loader's message.
    ExtractionFailed(String),
}

#[derive(Clone, Debug, PartialEq, Eq, Hash, PartialOrd, Ord)]
pub struct JournalConfigs {
    pub path: Option<String>,
    /// The format of the time in the name of an entry's file.
    pub file_name_format: Option<String>,
}

#[derive(Clone, Debug, PartialEq, Eq, Hash, PartialOrd, Ord)]
pub struct TaskConfigs {
    pub path: Option<String>,
    /// The format of the time in the name of a task's file.
    pub file_name_format: Option<String>,
}

#[derive(Clone, Copy, Debug, PartialEq, Eq, Hash, Structural)]
pub enum Error {
    DirDoesNotExist,
}

impl Error {
    /// What went wrong, in words for the operator.
    pub fn to_string(&self) -> (text: String)
        ensures
            text@ == "The path to the directory is not given"@,
    {
        "The path to the directory is not given".to_owned()
    }
}

fn setting(value: &Option<String>, name: &str) -> (found: Result<String, config_file::Error>)
    ensures
        match value {
            Some(v) => found is Ok && found->Ok_0@ == v@,
            None => found is Err && found->Err_0 is UnsetConfiguration
                && found->Err_0->UnsetConfiguration_0@ == name@,
        },
{
    match value {
        Some(v) => Ok(v.clone()),
        None => Err(config_file::Error::UnsetConfiguration(name.to_owned())),
    }
}

/// The editor's command line as the environment gives it. A variable that is not set, or
/// that holds no word, is `UnsetConfiguration` with the variable's name, `EDITOR`.
pub fn editor(variable: Option<String>) -> (editor: Result<String, config_file::Error>)
    ensures
        match variable {
            Some(line) if words(line@).len() > 0 => editor is Ok && editor->Ok_0@ == line@,
            _ => editor is Err && editor->Err_0 is UnsetConfiguration
                && editor->Err_0->UnsetConfiguration_0@ == "EDITOR"@,
        },
{
    match variable {
        Some(line) => {
            if split_words(line.as_str()).len() > 0 {
                Ok(line)
            } else {
                Err(config_file::Error::UnsetConfiguration("EDITOR".to_owned()))
            }
        },
        None => Err(config_file::Error::UnsetConfiguration("EDITOR".to_owned())),
    }
}

fn path_or_error(path: &Option<String>) -> (found: Result<String, Error>)
    ensures
        match path {
            Some(p) => found is Ok && found->Ok_0@ == p@,
            None => found == Err::<String, Error>(Error::DirDoesNotExist),
        },
{
    match path {
        Some(p) => Ok(p.clone()),
        None => Err(Error::DirDoesNotExist),
    }
}

impl Configs {
    /// The directory that the configuration gives for the journal, where it gives one.
    pub open spec fn journal_directory(self) -> Option<Seq<char>> {
        match self.journal {
            Some(journal) => journal.path.deep_view(),
            None => None,
        }
    }

    /// The directory that the configuration gives for the tasks, where it gives one.
    pub open spec fn task_directory(self) -> Option<Seq<char>> {
        match self.task {
            Some(task) => task.path.deep_view(),
            None => None,
        }
    }

    /// The format that the configuration gives for the names of the journal's files.
    pub open spec fn journal_format(self) -> Option<Seq<char>> {
        match self.journal {
            Some(journal) => journal.file_name_format.deep_view(),
            None => None,
        }
    }

    /// The format that the configuration gives for the names of the tasks' files.
    pub open spec fn task_format(self) -> Option<Seq<char>> {
        match self.task {
            Some(task) => task.file_name_format.deep_view(),
            None => None,
        }
    }

    /// The offset from UTC; `UnsetConfiguration` with the name `time_offset` where the
    /// configuration gives none.
    pub fn offset(&self) -> (offset: Result<(i8, i8, i8), config_file::Error>)
        ensures
            match self.time_offset {
                Some(hms) => offset == Ok::<(i8, i8, i8), config_file::Error>(hms),
                None => offset is Err && offset->Err_0 is UnsetConfiguration
                    && offset->Err_0->UnsetConfiguration_0@ == "time_offset"@,
            },
    {
        match self.time_offset {
            Some(hms) => Ok(hms),
            None => Err(config_file::Error::UnsetConfiguration("time_offset".to_owned())),
        }
    }

    /// The format of the names of the journal's files; `UnsetConfiguration` with the name
    /// `journal.file_name_format` where the configuration gives none.
    pub fn journal_file_format(&self) -> (format: Result<String, config_file::Error>)
        ensures
            match self.journal_format() {
                Some(f) => format is Ok && format->Ok_0@ == f,
                None => format is Err && format->Err_0 is UnsetConfiguration
                    && format->Err_0->UnsetConfiguration_0@ == "journal.file_name_format"@,
            },
    {
        match &self.journal {
            Some(journal) => setting(&journal.file_name_format, "journal.file_name_format"),
            None => Err(
                config_file::Error::UnsetConfiguration("journal.file_name_format".to_owned()),
            ),
        }
    }

    /// The format of the names of the tasks' files; `UnsetConfiguration` with the name
    /// `task.file_name_format` where the configuration gives none.
    pub fn task_file_format(&self) -> (format: Result<String, config_file::Error>)
        ensures
            match self.task_format() {
                Some(f) => format is Ok && format->Ok_0@ == f,
                None => format is Err && format->Err_0 is UnsetConfiguration
                    && format->Err_0->UnsetConfiguration_0@ == "task.file_name_format"@,
            },
    {
        match &self.task {
            Some(task) => setting(&task.file_name_format, "task.file_name_format"),
            None => Err(config_file::Error::UnsetConfiguration("task.file_name_format".to_owned())),
        }
    }

    /// The directory of the journal; `DirDoesNotExist` where the configuration has no
    /// journal section or the section has no path.
    pub fn journal_path(&self) -> (path: Result<String, Error>)
        ensures
            match self.journal_directory() {
                Some(p) => path is Ok && path->Ok_0@ == p,
                None => path == Err::<String, Error>(Error::DirDoesNotExist),
            },
    {
        match &self.journal {
            Some(journal) => path_or_error(&journal.path),
            None => Err(Error::DirDoesNotExist),
        }
    }

    /// The directory of the tasks; `DirDoesNotExist` where the configuration has no task
    /// section or the section has no path.
    pub fn task_path(&self) -> (path: Result<String, Error>)
        ensures
            match self.task_directory() {
                Some(p) => path is Ok && path->Ok_0@ == p,
                None => path == Err::<String, Error>(Error::DirDoesNotExist),
            },
    {
        match &self.task {
            Some(task) => path_or_error(&task.path),
            None => Err(Error::DirDoesNotExist),
        }
    }
}

} // verus!

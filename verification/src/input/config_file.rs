use vstd::prelude::*;

use crate::river::{Apps, Colors, CommandSet, Hardware};

verus! {

#[derive(Clone, Debug, PartialEq, Eq)]
pub enum ConfigErr {
    /// The payload is the loader's message.
    ExtractionFailed(String),
}

/// The configuration of the window manager.
#[derive(Clone, Debug, PartialEq, Eq, Hash, PartialOrd, Ord)]
pub struct Configs {
    pub colors: Colors,
    pub hardware: Hardware,
    pub apps: Apps,
    pub startups: Vec<CommandSet>,
    pub border_width: i8,
}

#[derive(Clone, Debug, PartialEq, Eq)]
pub enum Error {
    DirDoesNotExist,
    /// The name of the setting that is missing.
    UnsetConfiguration(String),
    /// The payload is the parser's message.
    TheFormatIsNotValid(String),
}

impl Error {
    /// The text of [`Error::to_string`].
    pub open spec fn text(self) -> Seq<char> {
        match self {
            Error::DirDoesNotExist => "The path to the directory is not given."@,
            Error::UnsetConfiguration(name) => name@ + " was not set in the the configuration."@,
            Error::TheFormatIsNotValid(cause) => "File format descriptor for journal is not valid: "@
                + cause@ + "."@,
        }
    }

    /// What went wrong, in words for the operator.
    pub fn to_string(&self) -> (text: String)
        ensures
            text@ == self.text(),
    {
        match self {
            Error::DirDoesNotExist => "The path to the directory is not given.".to_owned(),
            Error::UnsetConfiguration(name) => name.clone().concat(
                " was not set in the the configuration.",
            ),
            Error::TheFormatIsNotValid(cause) => {
                let mut text = "File format descriptor for journal is not valid: ".to_owned();
                text.append(cause.as_str());
                text.append(".");
                text
            },
        }
    }
}

} // verus!

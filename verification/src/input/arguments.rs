use vstd::prelude::*;

use super::JournalCommands;
use crate::tasks::task::{Area, State, StateView};
use crate::text::clone_texts;
use crate::timeutils::Timestamp;

verus! {

/// What the program can be asked to do.
#[derive(Debug)]
pub enum Commands {
    River,
    Completions {
        /// The shell to generate the completions for.
        shell: clap_complete_command::Shell,
    },
    Journal { journal_command: JournalCommands },
    Task { task_command: TaskCommands },
}

/// What the task list can be asked to do.
#[derive(Clone, Debug, PartialEq, Eq, Hash, PartialOrd, Ord)]
pub enum TaskCommands {
    New {
        title: String,
        description: Option<String>,
        area: Option<Area>,
        people: Option<Vec<String>>,
        projects: Option<Vec<String>>,
        /// The deadline, as the operator wrote it.
        deadline: Option<String>,
        /// The best day to start, as the operator wrote it.
        best_starting_time: Option<String>,
    },
    List(TaskListCommand),
    Done { id: Vec<String> },
    Backlog { id: Vec<String> },
    Abandon { id: Vec<String>, content: Option<String> },
    Todo { id: Vec<String> },
}

/// Which tasks to list.
#[derive(Clone, Copy, Debug, PartialEq, Eq, Hash, PartialOrd, Ord, Structural)]
pub enum TaskListCommand {
    /// Only the tasks that start today or have their deadline today.
    Today,
    Todo,
    Done,
    Abandoned,
    Backlogged,
}

impl TaskListCommand {
    /// The listing shows tasks in this state: for today's listing and for `Todo` those
    /// that are to do, for the others the state that they are named after.
    pub open spec fn shows(self, state: StateView) -> bool {
        match self {
            TaskListCommand::Today => state is ToDo,
            TaskListCommand::Todo => state is ToDo,
            TaskListCommand::Done => state is Done,
            TaskListCommand::Abandoned => state is Abandoned,
            TaskListCommand::Backlogged => state is Backlog,
        }
    }

    /// Tells whether the listing shows tasks whose current state is `state`.
    pub fn accepts(&self, state: &State) -> (shown: bool)
        ensures
            shown == self.shows(state@),
    {
        match (self, state) {
            (TaskListCommand::Today, State::ToDo(_)) => true,
            (TaskListCommand::Todo, State::ToDo(_)) => true,
            (TaskListCommand::Done, State::Done(_)) => true,
            (TaskListCommand::Abandoned, State::Abandoned(_, _)) => true,
            (TaskListCommand::Backlogged, State::Backlog(_)) => true,
            _ => false,
        }
    }
}

impl TaskCommands {
    /// The state that the command marks tasks with when it is given at the instant `at`,
    /// where it is a command that marks.
    pub open spec fn marks_with(self, at: Timestamp) -> Option<StateView> {
        match self {
            TaskCommands::Done { id } => Some(StateView::Done(at)),
            TaskCommands::Backlog { id } => Some(StateView::Backlog(at)),
            TaskCommands::Abandon { id, content } => Some(
                StateView::Abandoned(at, content.deep_view()),
            ),
            TaskCommands::Todo { id } => Some(StateView::ToDo(at)),
            _ => None,
        }
    }

    /// The identifiers that the command names, where it is a command that marks.
    pub open spec fn identifiers(self) -> Seq<Seq<char>> {
        match self {
            TaskCommands::Done { id } => id.deep_view(),
            TaskCommands::Backlog { id } => id.deep_view(),
            TaskCommands::Abandon { id, content } => id.deep_view(),
            TaskCommands::Todo { id } => id.deep_view(),
            _ => Seq::empty(),
        }
    }

    /// The state with which the command marks and the identifiers of the tasks to mark,
    /// where the command is one that marks; `at` is the instant at which it was given.
    pub fn marking(&self, at: Timestamp) -> (marking: Option<(State, Vec<String>)>)
        ensures
            match self.marks_with(at) {
                Some(state) => marking is Some && marking->Some_0.0@ == state
                    && marking->Some_0.1.deep_view() == self.identifiers(),
                None => marking is None,
            },
    {
        match self {
            TaskCommands::Done { id } => Some((State::Done(at), clone_texts(id))),
            TaskCommands::Backlog { id } => Some((State::Backlog(at), clone_texts(id))),
            TaskCommands::Abandon { id, content } => Some(
                (State::Abandoned(at, crate::text::clone_text(content)), clone_texts(id)),
            ),
            TaskCommands::Todo { id } => Some((State::ToDo(at), clone_texts(id))),
            _ => None,
        }
    }
}

} // verus!

use vstd::prelude::*;

use super::error::Error;
use super::task::{Task, TaskView};
use crate::files::{file_name, path_file_name};
use crate::text::{lemma_deep_view_push, lemma_deep_view_take_next};

verus! {

/// The tasks of a directory.
#[derive(Debug, PartialEq, Eq, Hash, PartialOrd, Ord)]
pub struct TaskList(pub Vec<TaskDescription>);

/// A task with the name of the file that holds it.
#[derive(Debug, PartialEq, Eq, Hash, PartialOrd, Ord)]
pub struct TaskDescription {
    pub task: Task,
    pub file_name: String,
}

/// The mathematical content of a [`TaskDescription`].
pub struct TaskDescriptionView {
    pub task: TaskView,
    pub file_name: Seq<char>,
}

impl View for TaskDescription {
    type V = TaskDescriptionView;

    open spec fn view(&self) -> TaskDescriptionView {
        TaskDescriptionView { task: self.task@, file_name: self.file_name@ }
    }
}

impl DeepView for TaskDescription {
    type V = TaskDescriptionView;

    open spec fn deep_view(&self) -> TaskDescriptionView {
        self@
    }
}

impl View for TaskList {
    type V = Seq<TaskDescriptionView>;

    open spec fn view(&self) -> Seq<TaskDescriptionView> {
        self.0.deep_view()
    }
}

impl TaskDescription {
    /// The task that was read from the file at `path`, with the name of that file. A path
    /// without a final component is `IsNotAFile`.
    pub fn new(task: Task, path: &str) -> (description: Result<TaskDescription, Error>)
        ensures
            match path_file_name(path@) {
                Some(name) => description is Ok && description->Ok_0.task == task
                    && description->Ok_0.file_name@ == name,
                None => description == Err::<TaskDescription, Error>(Error::IsNotAFile),
            },
    {
        match file_name(path) {
            Some(file_name) => Ok(TaskDescription { task, file_name }),
            None => Err(Error::IsNotAFile),
        }
    }
}

impl Clone for TaskDescription {
    fn clone(&self) -> (copy: Self)
        ensures
            copy@ == self@,
    {
        TaskDescription { task: self.task.clone(), file_name: self.file_name.clone() }
    }
}

impl Clone for TaskList {
    fn clone(&self) -> (copy: Self)
        ensures
            copy@ == self@,
    {
        let mut list: Vec<TaskDescription> = Vec::new();
        let mut i: usize = 0;
        while i < self.0.len()
            invariant
                i <= self.0.len(),
                list.deep_view() == self.0.deep_view().take(i as int),
            decreases self.0.len() - i,
        {
            let ghost before = list;
            let description = self.0[i].clone();
            list.push(description);
            proof {
                lemma_deep_view_push(before, list, description);
                lemma_deep_view_take_next(self.0, i as int);
            }
            i = i + 1;
        }
        assert(self.0.deep_view().take(self.0.len() as int) =~= self.0.deep_view());
        TaskList(list)
    }
}

} // verus!

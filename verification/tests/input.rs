use prmait::input::arguments::{Commands, TaskCommands, TaskListCommand};
use prmait::tasks::task::State;
use prmait::timeutils::Timestamp;
use prmait::input::config_file;
use prmait::input::{editor, Configs, Error, JournalConfigs, TaskConfigs};

fn is_normal<T: Sized + Send + Sync + Unpin>() {}

#[test]
fn config_file_normal_types() {
    is_normal::<config_file::Configs>();
}

#[test]
fn arguments_normal_types() {
    is_normal::<Commands>();
    is_normal::<TaskListCommand>();
}

#[test]
fn paths_come_from_their_sections() {
    let both = Configs {
        time_offset: None,
        journal: Some(JournalConfigs { path: Some("/j".to_owned()), file_name_format: None }),
        task: Some(TaskConfigs { path: Some("/t".to_owned()), file_name_format: None }),
    };
    assert_eq!(both.journal_path(), Ok("/j".to_owned()));
    assert_eq!(both.task_path(), Ok("/t".to_owned()));
}

#[test]
fn a_missing_section_or_path_is_an_error() {
    let none = Configs { time_offset: None, journal: None, task: None };
    assert_eq!(none.journal_path(), Err(Error::DirDoesNotExist));
    assert_eq!(none.task_path(), Err(Error::DirDoesNotExist));
    let empty = Configs {
        time_offset: None,
        journal: Some(JournalConfigs { path: None, file_name_format: None }),
        task: Some(TaskConfigs { path: None, file_name_format: None }),
    };
    assert_eq!(empty.journal_path(), Err(Error::DirDoesNotExist));
    assert_eq!(empty.task_path(), Err(Error::DirDoesNotExist));
    let mixed = Configs {
        time_offset: None,
        journal: Some(JournalConfigs { path: Some("j".to_owned()), file_name_format: None }),
        task: None,
    };
    assert_eq!(mixed.journal_path(), Ok("j".to_owned()));
    assert_eq!(mixed.task_path(), Err(Error::DirDoesNotExist));
}

#[test]
fn configuration_errors_have_their_messages() {
    assert_eq!(Error::DirDoesNotExist.to_string(), "The path to the directory is not given");
    assert_eq!(
        config_file::Error::DirDoesNotExist.to_string(),
        "The path to the directory is not given."
    );
    assert_eq!(
        config_file::Error::UnsetConfiguration("file_name_format".to_owned()).to_string(),
        "file_name_format was not set in the the configuration."
    );
    assert_eq!(
        config_file::Error::TheFormatIsNotValid("bad".to_owned()).to_string(),
        "File format descriptor for journal is not valid: bad."
    );
}

fn unset(name: &str) -> config_file::Error {
    config_file::Error::UnsetConfiguration(name.to_owned())
}

#[test]
fn settings_that_are_missing_are_named() {
    let none = Configs { time_offset: None, journal: None, task: None };
    assert_eq!(none.offset(), Err(unset("time_offset")));
    assert_eq!(none.journal_file_format(), Err(unset("journal.file_name_format")));
    assert_eq!(none.task_file_format(), Err(unset("task.file_name_format")));
    let empty = Configs {
        time_offset: Some((3, 30, 0)),
        journal: Some(JournalConfigs { path: None, file_name_format: None }),
        task: Some(TaskConfigs { path: None, file_name_format: Some("[year]".to_owned()) }),
    };
    assert_eq!(empty.offset(), Ok((3, 30, 0)));
    assert_eq!(empty.journal_file_format(), Err(unset("journal.file_name_format")));
    assert_eq!(empty.task_file_format(), Ok("[year]".to_owned()));
    let full = Configs {
        journal: Some(JournalConfigs { path: None, file_name_format: Some("[day]".to_owned()) }),
        ..empty
    };
    assert_eq!(full.journal_file_format(), Ok("[day]".to_owned()));
}

#[test]
fn the_editor_must_be_specified() {
    assert_eq!(editor(Some("vi".to_owned())), Ok("vi".to_owned()));
    assert_eq!(editor(Some(" code --wait ".to_owned())), Ok(" code --wait ".to_owned()));
    assert_eq!(editor(None), Err(unset("EDITOR")));
    assert_eq!(editor(Some(String::new())), Err(unset("EDITOR")));
    assert_eq!(editor(Some(" \t\n".to_owned())), Err(unset("EDITOR")));
}

#[test]
fn commands_that_mark_name_their_state() {
    let at = Timestamp { unix_seconds: 9, nanosecond: 0, offset_seconds: 0 };
    let id = vec!["1".to_owned(), "22".to_owned()];
    assert_eq!(TaskCommands::Done { id: id.clone() }.marking(at), Some((State::Done(at), id.clone())));
    assert_eq!(
        TaskCommands::Backlog { id: id.clone() }.marking(at),
        Some((State::Backlog(at), id.clone()))
    );
    assert_eq!(TaskCommands::Todo { id: vec![] }.marking(at), Some((State::ToDo(at), vec![])));
    assert_eq!(
        TaskCommands::Abandon { id: id.clone(), content: Some("late".to_owned()) }.marking(at),
        Some((State::Abandoned(at, Some("late".to_owned())), id.clone()))
    );
    assert_eq!(
        TaskCommands::Abandon { id: id.clone(), content: None }.marking(at),
        Some((State::Abandoned(at, None), id))
    );
    assert_eq!(TaskCommands::List(TaskListCommand::Done).marking(at), None);
    let new = TaskCommands::New {
        title: "t".to_owned(),
        description: None,
        area: None,
        people: None,
        projects: None,
        deadline: None,
        best_starting_time: None,
    };
    assert_eq!(new.marking(at), None);
}

#[test]
fn listings_show_their_state() {
    let at = Timestamp { unix_seconds: 9, nanosecond: 0, offset_seconds: 0 };
    let states =
        [State::Backlog(at), State::Abandoned(at, None), State::Done(at), State::ToDo(at)];
    let shown = |which: TaskListCommand| states.iter().map(|s| which.accepts(s)).collect::<Vec<_>>();
    assert_eq!(shown(TaskListCommand::Backlogged), [true, false, false, false]);
    assert_eq!(shown(TaskListCommand::Abandoned), [false, true, false, false]);
    assert_eq!(shown(TaskListCommand::Done), [false, false, true, false]);
    assert_eq!(shown(TaskListCommand::Todo), [false, false, false, true]);
    assert_eq!(shown(TaskListCommand::Today), [false, false, false, true]);
}

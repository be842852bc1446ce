use prmait::effects::{
    command_runner, dir_creator, editor_opener, file_writer, CreateDirOpts, Effect, EffectKind,
    EffectMachine, Error, FileWriterOpts, Found, OpenInEditorOpts, Operation,
};

fn is_normal<T: Sized + Send + Sync + Unpin>() {}

#[test]
fn effects_normal_types() {
    is_normal::<EffectKind>();
}

fn print(text: &str) -> EffectKind {
    EffectKind::PrintToStdOut(text.to_owned())
}

fn writer(can_create: bool, can_overwrite: bool) -> FileWriterOpts {
    FileWriterOpts {
        content: b"x".to_vec(),
        file_path: "a.json".to_owned(),
        can_create,
        can_overwrite,
    }
}

#[test]
fn write_file_precondition_matrix() {
    assert_eq!(file_writer(&writer(false, false), false), Err(Error::FileDoesNotExists));
    assert_eq!(file_writer(&writer(false, false), true), Err(Error::FileAlreadyExists));
    assert_eq!(file_writer(&writer(false, true), false), Err(Error::FileDoesNotExists));
    assert_eq!(file_writer(&writer(false, true), true), Ok(()));
    assert_eq!(file_writer(&writer(true, false), false), Ok(()));
    assert_eq!(file_writer(&writer(true, false), true), Err(Error::FileAlreadyExists));
    assert_eq!(file_writer(&writer(true, true), false), Ok(()));
    assert_eq!(file_writer(&writer(true, true), true), Ok(()));
}

#[test]
fn directory_decisions() {
    let lenient = CreateDirOpts { folder_path: "d".to_owned(), ok_if_exists: true };
    let strict = CreateDirOpts { folder_path: "d".to_owned(), ok_if_exists: false };
    assert_eq!(dir_creator(&lenient, false, false), Ok(true));
    assert_eq!(dir_creator(&strict, false, false), Ok(true));
    assert_eq!(dir_creator(&lenient, true, false), Err(Error::FileWithDirNameExists));
    assert_eq!(dir_creator(&strict, true, false), Err(Error::FileWithDirNameExists));
    assert_eq!(dir_creator(&lenient, true, true), Ok(false));
    assert_eq!(dir_creator(&strict, true, true), Err(Error::DirAlreadyExists));
}

/// Drives a sequential run with a double that fails on the texts listed, and records the
/// order in which descriptions were handed out.
fn drive(machine: EffectMachine, failing: &[&str]) -> (Vec<String>, Result<(), Error>) {
    let mut seen = Vec::new();
    let mut run = machine.run();
    loop {
        let outcome = match run.pending() {
            None => break,
            Some(EffectKind::PrintToStdOut(text)) => {
                seen.push(text.clone());
                if failing.contains(&text.as_str()) {
                    Err(Error::EditorError(text.clone()))
                } else {
                    Ok(())
                }
            }
            Some(_) => unreachable!(),
        };
        run.record(outcome);
    }
    (seen, run.result().unwrap())
}

#[test]
fn fatal_failure_stops_the_run() {
    let mut machine = EffectMachine::new();
    machine.add(print("a"), false);
    machine.add(print("b"), false);
    let (seen, verdict) = drive(machine, &["a"]);
    assert_eq!(seen, vec!["a".to_owned()]);
    assert_eq!(verdict, Err(Error::EditorError("a".to_owned())));
}

#[test]
fn forgiven_failure_continues() {
    let mut machine = EffectMachine::new();
    machine.add(print("a"), true);
    machine.add(print("b"), false);
    let (seen, verdict) = drive(machine, &["a"]);
    assert_eq!(seen, vec!["a".to_owned(), "b".to_owned()]);
    assert_eq!(verdict, Ok(()));

    let mut machine = EffectMachine::new();
    machine.add(print("a"), true);
    machine.add(print("b"), false);
    let (seen, verdict) = drive(machine, &["a", "b"]);
    assert_eq!(seen, vec!["a".to_owned(), "b".to_owned()]);
    assert_eq!(verdict, Err(Error::EditorError("b".to_owned())));
}

#[test]
fn sequential_run_keeps_append_order() {
    let mut machine = EffectMachine::default();
    machine.add(print("e1"), false);
    machine.add(print("e2"), false);
    machine.add(print("e3"), false);
    let (seen, verdict) = drive(machine, &[]);
    assert_eq!(seen, vec!["e1".to_owned(), "e2".to_owned(), "e3".to_owned()]);
    assert_eq!(verdict, Ok(()));
}

#[test]
fn unfinished_run_has_no_result() {
    let mut machine = EffectMachine::new();
    machine.add(print("a"), false);
    assert_eq!(machine.run().result(), None);
    assert_eq!(EffectMachine::new().run().result(), Some(Ok(())));
}

#[test]
fn concurrent_verdict_is_first_fatal_in_order() {
    let build = || {
        let mut machine = EffectMachine::new();
        machine.add(print("a"), true);
        machine.add(print("b"), false);
        machine.add(print("c"), false);
        machine
    };
    let e = |t: &str| Err(Error::EditorError(t.to_owned()));
    assert_eq!(build().async_run(vec![Ok(()), Ok(()), Ok(())]), Ok(()));
    assert_eq!(build().async_run(vec![e("a"), Ok(()), Ok(())]), Ok(()));
    assert_eq!(build().async_run(vec![e("a"), e("b"), e("c")]), e("b"));
    assert_eq!(build().async_run(vec![Ok(()), Ok(()), e("c")]), e("c"));
    assert_eq!(build().async_run(vec![]), Ok(()));
    assert_eq!(build().async_run(vec![Ok(()), Ok(()), Ok(()), e("d")]), Ok(()));
}

#[test]
fn wrappers_keep_their_flag() {
    let mut machine = EffectMachine::new();
    machine.add(print("a"), true);
    let Effect { effect_kind, forgiving } = &machine.0[0];
    assert!(*forgiving);
    assert!(matches!(effect_kind, EffectKind::PrintToStdOut(t) if t == "a"));
}

#[test]
fn exit_codes_are_judged() {
    assert_eq!(command_runner(0), Ok(()));
    assert_eq!(
        command_runner(1),
        Err(Error::GitError(prmait::git::Error::CommandReturnedNon0StatusCode(1)))
    );
    assert_eq!(
        command_runner(-1),
        Err(Error::GitError(prmait::git::Error::CommandReturnedNon0StatusCode(-1)))
    );
    assert_eq!(editor_opener(0), Ok(()));
    assert_eq!(editor_opener(2), Err(Error::EditorError("exit status: 2".to_owned())));
    assert_eq!(
        editor_opener(i32::MIN),
        Err(Error::EditorError("exit status: -2147483648".to_owned()))
    );
}

#[test]
fn descriptions_name_their_target() {
    let write = EffectKind::WriteToFile(writer(true, true));
    assert_eq!(write.target(), Some(&"a.json".to_owned()));
    let dir = EffectKind::CreateDir(CreateDirOpts { folder_path: "d".to_owned(), ok_if_exists: true });
    assert_eq!(dir.target(), Some(&"d".to_owned()));
    assert_eq!(print("x").target(), None);
    assert_eq!(EffectKind::RunAsyncMachine(EffectMachine::new()).target(), None);
}

#[test]
fn dispatch_names_the_step_that_is_left() {
    let absent = Found { exists: false, is_dir: false };
    let file = Found { exists: true, is_dir: false };
    let directory = Found { exists: true, is_dir: true };

    let write = EffectKind::WriteToFile(writer(true, false));
    assert!(matches!(write.apply(absent), Ok(Operation::WriteFile(opts)) if *opts == writer(true, false)));
    assert!(matches!(write.apply(file), Err(Error::FileAlreadyExists)));
    let update = EffectKind::WriteToFile(writer(false, true));
    assert!(matches!(update.apply(absent), Err(Error::FileDoesNotExists)));
    assert!(matches!(update.apply(file), Ok(Operation::WriteFile(_))));

    let dir = EffectKind::CreateDir(CreateDirOpts { folder_path: "d".to_owned(), ok_if_exists: true });
    assert!(matches!(dir.apply(absent), Ok(Operation::CreateDirAll(opts)) if opts.folder_path == "d"));
    assert!(matches!(dir.apply(directory), Ok(Operation::Nothing)));
    assert!(matches!(dir.apply(file), Err(Error::FileWithDirNameExists)));
    let strict =
        EffectKind::CreateDir(CreateDirOpts { folder_path: "d".to_owned(), ok_if_exists: false });
    assert!(matches!(strict.apply(directory), Err(Error::DirAlreadyExists)));

    let edit = EffectKind::OpenInEditor(OpenInEditorOpts {
        editor: "vi".to_owned(),
        files_to_edit: vec!["a".to_owned()],
    });
    assert!(matches!(edit.apply(file), Ok(Operation::LaunchEditor(opts)) if opts.editor == "vi"));
    let run = EffectKind::RunExternalCommand(
        "git".to_owned(),
        vec!["push".to_owned()],
        std::collections::HashMap::new(),
    );
    assert!(matches!(
        run.apply(absent),
        Ok(Operation::Spawn(program, args, env))
            if program == "git" && args.len() == 1 && env.is_empty()
    ));
    assert!(matches!(print("x").apply(absent), Ok(Operation::PrintOut(text)) if text == "x"));
    assert!(matches!(
        EffectKind::PrintToStdErr("y".to_owned()).apply(absent),
        Ok(Operation::PrintErr(text)) if text == "y"
    ));
    let mut inner = EffectMachine::new();
    inner.add(print("z"), true);
    assert!(matches!(
        EffectKind::RunAsyncMachine(inner).apply(absent),
        Ok(Operation::RunConcurrently(machine)) if machine.0.len() == 1
    ));
}

#[test]
fn errors_have_their_messages() {
    assert_eq!(Error::FileAlreadyExists.to_string(), "this file already exists");
    assert_eq!(Error::FileDoesNotExists.to_string(), "this file does not exist");
    assert_eq!(Error::DirAlreadyExists.to_string(), "this dir already exists");
    assert_eq!(Error::FileWithDirNameExists.to_string(), "file with this dir name exists");
    assert_eq!(
        Error::CheckFileExistenceFailed("denied".to_owned()).to_string(),
        "checking for the existence of the file failed: denied"
    );
    assert_eq!(
        Error::CouldNotWriteToFile("full".to_owned()).to_string(),
        "I could not write to file: full"
    );
    assert_eq!(
        Error::CouldNotCreateDir("denied".to_owned()).to_string(),
        "failed in creating dir: denied"
    );
    assert_eq!(
        Error::EditorError("exit status: 1".to_owned()).to_string(),
        "editor returned error: exit status: 1"
    );
    assert_eq!(
        Error::AsyncRuntimeCouldNotBeBuilt("no threads".to_owned()).to_string(),
        "could not build async runtime: no threads"
    );
    assert_eq!(
        Error::GitError(prmait::git::Error::DirectoryParentIsNotFound).to_string(),
        "got error from running git command: directory parent is not found"
    );
}

#[test]
fn the_editor_command_is_split_into_words() {
    let opts = |editor: &str| OpenInEditorOpts {
        editor: editor.to_owned(),
        files_to_edit: vec!["a b.json".to_owned(), "c.json".to_owned()],
    };
    assert_eq!(opts("vi").argv(), vec!["vi", "a b.json", "c.json"]);
    assert_eq!(
        opts("  code\t--wait  --new-window\n").argv(),
        vec!["code", "--wait", "--new-window", "a b.json", "c.json"]
    );
    assert_eq!(opts("").argv(), vec!["a b.json", "c.json"]);
    let absent = Found { exists: false, is_dir: false };
    assert!(matches!(
        EffectKind::OpenInEditor(opts(" ")).apply(absent),
        Err(Error::EditorIsNotSpecified)
    ));
    assert!(matches!(
        EffectKind::OpenInEditor(opts("")).apply(absent),
        Err(Error::EditorIsNotSpecified)
    ));
    assert!(matches!(
        EffectKind::OpenInEditor(opts("vi -p")).apply(absent),
        Ok(Operation::LaunchEditor(_))
    ));
    assert_eq!(Error::EditorIsNotSpecified.to_string(), "editor variable is not specified");
}

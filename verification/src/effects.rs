use std::collections::HashMap;
use vstd::prelude::*;

use crate::git;
use crate::text::{decimal, decimal_text, extend_texts, split_words, words};

verus! {

/// `Shell` of clap_complete_command: the kind of shell that a completion script is for.
/// Nothing is claimed of it; a description carries it to the executor.
#[verifier::external_type_specification]
#[verifier::external_body]
pub struct ExShell(clap_complete_command::Shell);

/// `Command` of clap: the schema of the program's arguments. Nothing is claimed of it; a
/// description carries it to the executor.
#[verifier::external_type_specification]
#[verifier::external_body]
pub struct ExCommand(clap::Command);

/// One observable operation, described and not yet performed.
#[derive(Debug)]
pub enum EffectKind {
    WriteToFile(FileWriterOpts),
    CreateDir(CreateDirOpts),
    OpenInEditor(OpenInEditorOpts),
    /// Program, arguments and environment of a subprocess to wait for.
    RunExternalCommand(String, Vec<String>, HashMap<String, String>),
    PrintToStdOut(String),
    PrintToStdErr(String),
    GenerateShellCompletion(clap_complete_command::Shell, clap::Command),
    /// A sub-sequence whose wrappers carry no mutual ordering and run concurrently.
    RunAsyncMachine(EffectMachine),
}

/// A description paired with the flag that decides whether its failure stops the machine.
#[derive(Debug)]
pub struct Effect {
    pub effect_kind: EffectKind,
    pub forgiving: bool,
}

/// An ordered sequence of wrappers, appended to and then executed once.
#[derive(Debug)]
pub struct EffectMachine(pub Vec<Effect>);

#[derive(Clone, Debug, PartialEq, Eq, Hash, PartialOrd, Ord)]
pub struct OpenInEditorOpts {
    pub editor: String,
    pub files_to_edit: Vec<String>,
}

#[derive(Clone, Debug, PartialEq, Eq, Hash, PartialOrd, Ord)]
pub struct FileWriterOpts {
    pub content: Vec<u8>,
    pub file_path: String,
    pub can_create: bool,
    pub can_overwrite: bool,
}

#[derive(Clone, Debug, PartialEq, Eq, Hash, PartialOrd, Ord)]
pub struct CreateDirOpts {
    pub folder_path: String,
    pub ok_if_exists: bool,
}

#[derive(Clone, Debug, PartialEq, Eq, Hash, PartialOrd, Ord)]
pub struct GitHookOpts {
    pub start_path: String,
    pub files_to_add: Vec<String>,
    pub message: String,
}

/// Why applying a description failed.
#[derive(Clone, Debug, PartialEq, Eq)]
pub enum Error {
    /// The payload is the system's message.
    CheckFileExistenceFailed(String),
    FileAlreadyExists,
    FileDoesNotExists,
    /// The payload is the system's message.
    CouldNotWriteToFile(String),
    DirAlreadyExists,
    FileWithDirNameExists,
    /// The payload is the system's message.
    CouldNotCreateDir(String),
    GitError(git::Error),
    /// The payload is the system's message.
    EditorError(String),
    /// The editor's command line holds no word.
    EditorIsNotSpecified,
    /// The payload is the system's message.
    AsyncRuntimeCouldNotBeBuilt(String),
}

/// The mathematical content of an [`EffectKind`].
pub enum EffectKindView {
    WriteToFile { content: Seq<u8>, file_path: Seq<char>, can_create: bool, can_overwrite: bool },
    CreateDir { folder_path: Seq<char>, ok_if_exists: bool },
    OpenInEditor { editor: Seq<char>, files_to_edit: Seq<Seq<char>> },
    RunExternalCommand { program: Seq<char>, args: Seq<Seq<char>>, env: Map<Seq<char>, Seq<char>> },
    PrintToStdOut(Seq<char>),
    PrintToStdErr(Seq<char>),
    GenerateShellCompletion(clap_complete_command::Shell, clap::Command),
    RunAsyncMachine(Seq<EffectView>),
}

/// The mathematical content of an [`Effect`].
pub struct EffectView {
    pub effect_kind: EffectKindView,
    pub forgiving: bool,
}

impl View for EffectKind {
    type V = EffectKindView;

    open spec fn view(&self) -> EffectKindView
        decreases self,
    {
        match self {
            EffectKind::WriteToFile(opts) => EffectKindView::WriteToFile {
                content: opts.content@,
                file_path: opts.file_path@,
                can_create: opts.can_create,
                can_overwrite: opts.can_overwrite,
            },
            EffectKind::CreateDir(opts) => EffectKindView::CreateDir {
                folder_path: opts.folder_path@,
                ok_if_exists: opts.ok_if_exists,
            },
            EffectKind::OpenInEditor(opts) => EffectKindView::OpenInEditor {
                editor: opts.editor@,
                files_to_edit: opts.files_to_edit.deep_view(),
            },
            EffectKind::RunExternalCommand(program, args, env) => EffectKindView::RunExternalCommand {
                program: program@,
                args: args.deep_view(),
                env: env.deep_view(),
            },
            EffectKind::PrintToStdOut(text) => EffectKindView::PrintToStdOut(text@),
            EffectKind::PrintToStdErr(text) => EffectKindView::PrintToStdErr(text@),
            EffectKind::GenerateShellCompletion(shell, command) => {
                EffectKindView::GenerateShellCompletion(*shell, *command)
            },
            EffectKind::RunAsyncMachine(machine) => EffectKindView::RunAsyncMachine(
                Seq::new(
                    machine.0@.len(),
                    |i: int|
                        if 0 <= i < machine.0@.len() {
                            Effect::view(&machine.0@[i])
                        } else {
                            arbitrary()
                        },
                ),
            ),
        }
    }
}

impl View for Effect {
    type V = EffectView;

    open spec fn view(&self) -> EffectView
        decreases self,
    {
        EffectView { effect_kind: self.effect_kind@, forgiving: self.forgiving }
    }
}

impl View for EffectMachine {
    type V = Seq<EffectView>;

    open spec fn view(&self) -> Seq<EffectView> {
        Seq::new(
            self.0@.len(),
            |i: int|
                if 0 <= i < self.0@.len() {
                    self.0@[i]@
                } else {
                    arbitrary()
                },
        )
    }
}

impl EffectMachine {
    /// An empty machine.
    #[must_use]
    pub fn new() -> (machine: Self)
        ensures
            machine@ == Seq::<EffectView>::empty(),
            machine.0@ == Seq::<Effect>::empty(),
    {
        let machine = EffectMachine(Vec::new());
        assert(machine@ =~= Seq::<EffectView>::empty());
        machine
    }

    /// Appends one wrapper to the tail; whatever was appended before stays where it is.
    pub fn add(&mut self, effect: EffectKind, forgiving: bool)
        ensures
            final(self).0@ == old(self).0@.push(Effect { effect_kind: effect, forgiving }),
            final(self)@ == old(self)@.push(EffectView { effect_kind: effect@, forgiving }),
    {
        self.0.push(Effect { effect_kind: effect, forgiving });
        assert(self@ =~= old(self)@.push(EffectView { effect_kind: effect@, forgiving }));
    }
}

/// The view of a nested machine is the view of its wrappers.
pub proof fn lemma_nested_view(machine: EffectMachine)
    ensures
        EffectKind::RunAsyncMachine(machine)@ == EffectKindView::RunAsyncMachine(machine@),
{
    let nested = EffectKind::RunAsyncMachine(machine)@;
    assert(nested->RunAsyncMachine_0 =~= machine@);
}

impl Default for EffectMachine {
    fn default() -> (machine: Self)
        ensures
            machine@ == Seq::<EffectView>::empty(),
            machine.0@ == Seq::<Effect>::empty(),
    {
        Self::new()
    }
}


/// Whether a file may be written, given whether something exists at its path: a writer that
/// may not create needs the file to exist, one that may not overwrite needs it to be absent.
pub open spec fn write_check(can_create: bool, can_overwrite: bool, exists: bool) -> Result<(), Error> {
    if !can_create && !exists {
        Err(Error::FileDoesNotExists)
    } else if !can_overwrite && exists {
        Err(Error::FileAlreadyExists)
    } else {
        Ok(())
    }
}

/// A write goes through exactly where its target exists and may be overwritten, or is
/// absent and may be created; else it fails, for an absent target with `FileDoesNotExists`
/// and for one that exists with `FileAlreadyExists`.
pub proof fn lemma_write_matrix(can_create: bool, can_overwrite: bool, exists: bool)
    ensures
        write_check(can_create, can_overwrite, exists) is Ok <==> (if exists {
            can_overwrite
        } else {
            can_create
        }),
        !exists && !can_create ==> write_check(can_create, can_overwrite, exists) == Err::<
            (),
            Error,
        >(Error::FileDoesNotExists),
        exists && !can_overwrite ==> write_check(can_create, can_overwrite, exists) == Err::<
            (),
            Error,
        >(Error::FileAlreadyExists),
{
}

/// Decides whether the file of `opts` may be written; `exists` says whether something is at
/// its path. On `Ok` the executor replaces the file's whole content.
pub fn file_writer(opts: &FileWriterOpts, exists: bool) -> (verdict: Result<(), Error>)
    ensures
        verdict == write_check(opts.can_create, opts.can_overwrite, exists),
{
    if !opts.can_create && !exists {
        return Err(Error::FileDoesNotExists);
    }
    if !opts.can_overwrite && exists {
        return Err(Error::FileAlreadyExists);
    }
    Ok(())
}

/// What is to be done about a directory, given what is at its path: `Ok(true)` asks for the
/// directory and its ancestors to be created, `Ok(false)` for nothing.
pub open spec fn directory_check(ok_if_exists: bool, exists: bool, is_dir: bool) -> Result<
    bool,
    Error,
> {
    if !exists {
        Ok(true)
    } else if !is_dir {
        Err(Error::FileWithDirNameExists)
    } else if ok_if_exists {
        Ok(false)
    } else {
        Err(Error::DirAlreadyExists)
    }
}

/// Decides what to do about the directory of `opts`; `exists` says whether something is at
/// its path and `is_dir` whether that is a directory. `Ok(true)` asks the executor to create
/// the directory and its ancestors, `Ok(false)` to leave things as they are.
pub fn dir_creator(opts: &CreateDirOpts, exists: bool, is_dir: bool) -> (verdict: Result<bool, Error>)
    ensures
        verdict == directory_check(opts.ok_if_exists, exists, is_dir),
{
    if exists {
        if !is_dir {
            return Err(Error::FileWithDirNameExists);
        }
        if opts.ok_if_exists {
            return Ok(false);
        }
        return Err(Error::DirAlreadyExists);
    }
    Ok(true)
}

/// What the executor found at the path that a description names.
#[derive(Clone, Copy, Debug, PartialEq, Eq, Structural)]
pub struct Found {
    /// Something is at the path.
    pub exists: bool,
    /// What is at the path is a directory.
    pub is_dir: bool,
}

/// The one step that is left to the executor once a description has been judged.
#[derive(Debug)]
pub enum Operation<'a> {
    /// Nothing is left to do.
    Nothing,
    /// Replace the whole content of the file.
    WriteFile(&'a FileWriterOpts),
    /// Create the directory and its ancestors.
    CreateDirAll(&'a CreateDirOpts),
    /// Launch the command that [`OpenInEditorOpts::argv`] gives and wait for it;
    /// [`editor_opener`] judges its exit.
    LaunchEditor(&'a OpenInEditorOpts),
    /// Spawn the program with the arguments and the environment and wait for it;
    /// [`command_runner`] judges its exit.
    Spawn(&'a String, &'a Vec<String>, &'a HashMap<String, String>),
    /// Write the text and a line terminator to the standard output.
    PrintOut(&'a String),
    /// Write the text and a line terminator to the standard error.
    PrintErr(&'a String),
    /// Render the completion script of the command for the shell to the standard output.
    Complete(&'a clap_complete_command::Shell, &'a clap::Command),
    /// Execute the machine concurrently; [`EffectMachine::async_run`] folds the outcomes.
    RunConcurrently(&'a EffectMachine),
}

impl EffectKind {
    /// The path that the executor has to look at before the description can be judged.
    pub open spec fn spec_target(&self) -> Option<Seq<char>> {
        match self {
            EffectKind::WriteToFile(opts) => Some(opts.file_path@),
            EffectKind::CreateDir(opts) => Some(opts.folder_path@),
            _ => None,
        }
    }

    /// What applying the description comes to, given what was found at its target: the
    /// failure of a precondition, or the step that is left to the executor.
    pub open spec fn plan(&self, found: Found) -> Result<Operation<'_>, Error> {
        match self {
            EffectKind::WriteToFile(opts) => match write_check(
                opts.can_create,
                opts.can_overwrite,
                found.exists,
            ) {
                Ok(()) => Ok(Operation::WriteFile(opts)),
                Err(error) => Err(error),
            },
            EffectKind::CreateDir(opts) => match directory_check(
                opts.ok_if_exists,
                found.exists,
                found.is_dir,
            ) {
                Ok(true) => Ok(Operation::CreateDirAll(opts)),
                Ok(false) => Ok(Operation::Nothing),
                Err(error) => Err(error),
            },
            EffectKind::OpenInEditor(opts) => if words(opts.editor@).len() == 0 {
                Err(Error::EditorIsNotSpecified)
            } else {
                Ok(Operation::LaunchEditor(opts))
            },
            EffectKind::RunExternalCommand(program, args, env) => Ok(
                Operation::Spawn(program, args, env),
            ),
            EffectKind::PrintToStdOut(text) => Ok(Operation::PrintOut(text)),
            EffectKind::PrintToStdErr(text) => Ok(Operation::PrintErr(text)),
            EffectKind::GenerateShellCompletion(shell, command) => Ok(
                Operation::Complete(shell, command),
            ),
            EffectKind::RunAsyncMachine(machine) => Ok(Operation::RunConcurrently(machine)),
        }
    }

    /// The path that the executor has to look at before it applies the description: the
    /// file of a write, the directory of a creation, and none for the other descriptions.
    pub fn target(&self) -> (path: Option<&String>)
        ensures
            path.deep_view() == self.spec_target(),
    {
        match self {
            EffectKind::WriteToFile(opts) => Some(&opts.file_path),
            EffectKind::CreateDir(opts) => Some(&opts.folder_path),
            _ => None,
        }
    }

    /// Judges the description, given what was found at its target, and names the step
    /// that is left to the executor. `found` does not matter where there is no target.
    pub fn apply(&self, found: Found) -> (step: Result<Operation<'_>, Error>)
        ensures
            step == self.plan(found),
    {
        match self {
            EffectKind::WriteToFile(opts) => match file_writer(opts, found.exists) {
                Ok(()) => Ok(Operation::WriteFile(opts)),
                Err(error) => Err(error),
            },
            EffectKind::CreateDir(opts) => match dir_creator(opts, found.exists, found.is_dir) {
                Ok(true) => Ok(Operation::CreateDirAll(opts)),
                Ok(false) => Ok(Operation::Nothing),
                Err(error) => Err(error),
            },
            EffectKind::OpenInEditor(opts) => {
                if split_words(opts.editor.as_str()).len() == 0 {
                    Err(Error::EditorIsNotSpecified)
                } else {
                    Ok(Operation::LaunchEditor(opts))
                }
            },
            EffectKind::RunExternalCommand(program, args, env) => Ok(
                Operation::Spawn(program, args, env),
            ),
            EffectKind::PrintToStdOut(text) => Ok(Operation::PrintOut(text)),
            EffectKind::PrintToStdErr(text) => Ok(Operation::PrintErr(text)),
            EffectKind::GenerateShellCompletion(shell, command) => Ok(
                Operation::Complete(shell, command),
            ),
            EffectKind::RunAsyncMachine(machine) => Ok(Operation::RunConcurrently(machine)),
        }
    }
}

impl OpenInEditorOpts {
    /// The command that launches the editor: the words of the editor's command line, the
    /// first of which is the program, and behind them the files.
    pub fn argv(&self) -> (argv: Vec<String>)
        ensures
            argv.deep_view() == words(self.editor@) + self.files_to_edit.deep_view(),
    {
        let mut argv = split_words(self.editor.as_str());
        extend_texts(&mut argv, self.files_to_edit.as_slice());
        argv
    }
}

/// Expands a hook into the synchronization chain inside the repository that was found
/// around its start path.
pub fn git_hooker(opts: &GitHookOpts, repo_root: &str) -> (machine: EffectMachine)
    ensures
        machine@ == git::sync_chain(repo_root@, opts.files_to_add.deep_view(), opts.message@),
{
    git::full_hook(repo_root, opts.files_to_add.as_slice(), opts.message.as_str())
}

/// Judges the exit of an external command: exit code 0 is success, any other code is a
/// failure that carries the code.
pub fn command_runner(exit_code: i32) -> (verdict: Result<(), Error>)
    ensures
        verdict == if exit_code == 0 {
            Ok::<(), Error>(())
        } else {
            Err(Error::GitError(git::Error::CommandReturnedNon0StatusCode(exit_code)))
        },
{
    if exit_code == 0 {
        Ok(())
    } else {
        Err(Error::GitError(git::Error::CommandReturnedNon0StatusCode(exit_code)))
    }
}

/// The text that reports an editor's exit code.
pub open spec fn exit_status_text(exit_code: int) -> Seq<char> {
    "exit status: "@ + decimal(exit_code)
}

/// Judges the exit of the editor: exit code 0 is success, any other code is a failure.
pub fn editor_opener(exit_code: i32) -> (verdict: Result<(), Error>)
    ensures
        exit_code == 0 ==> verdict is Ok,
        exit_code != 0 ==> (verdict matches Err(Error::EditorError(text)) && text@
            == exit_status_text(exit_code as int)),
{
    if exit_code == 0 {
        Ok(())
    } else {
        let text = "exit status: ".to_owned().concat(decimal_text(exit_code as i128).as_str());
        Err(Error::EditorError(text))
    }
}

impl Error {
    /// The text of [`Error::to_string`].
    pub open spec fn text(self) -> Seq<char> {
        match self {
            Error::CheckFileExistenceFailed(cause) => "checking for the existence of the file failed: "@
                + cause@,
            Error::FileAlreadyExists => "this file already exists"@,
            Error::FileDoesNotExists => "this file does not exist"@,
            Error::CouldNotWriteToFile(cause) => "I could not write to file: "@ + cause@,
            Error::DirAlreadyExists => "this dir already exists"@,
            Error::FileWithDirNameExists => "file with this dir name exists"@,
            Error::CouldNotCreateDir(cause) => "failed in creating dir: "@ + cause@,
            Error::GitError(cause) => "got error from running git command: "@
                + cause.text(),
            Error::EditorError(cause) => "editor returned error: "@ + cause@,
            Error::EditorIsNotSpecified => "editor variable is not specified"@,
            Error::AsyncRuntimeCouldNotBeBuilt(cause) => "could not build async runtime: "@ + cause@,
        }
    }

    /// What went wrong, in words for the operator.
    pub fn to_string(&self) -> (text: String)
        ensures
            text@ == self.text(),
    {
        match self {
            Error::CheckFileExistenceFailed(cause) => {
                "checking for the existence of the file failed: ".to_owned().concat(cause.as_str())
            },
            Error::FileAlreadyExists => "this file already exists".to_owned(),
            Error::FileDoesNotExists => "this file does not exist".to_owned(),
            Error::CouldNotWriteToFile(cause) => "I could not write to file: ".to_owned().concat(
                cause.as_str(),
            ),
            Error::DirAlreadyExists => "this dir already exists".to_owned(),
            Error::FileWithDirNameExists => "file with this dir name exists".to_owned(),
            Error::CouldNotCreateDir(cause) => "failed in creating dir: ".to_owned().concat(
                cause.as_str(),
            ),
            Error::GitError(cause) => "got error from running git command: ".to_owned().concat(
                cause.to_string().as_str(),
            ),
            Error::EditorError(cause) => "editor returned error: ".to_owned().concat(cause.as_str()),
            Error::EditorIsNotSpecified => "editor variable is not specified".to_owned(),
            Error::AsyncRuntimeCouldNotBeBuilt(cause) => {
                "could not build async runtime: ".to_owned().concat(cause.as_str())
            },
        }
    }
}

/// True when this outcome of this wrapper stops a machine: a failure that is not forgiven.
pub open spec fn is_fatal(effect: Effect, outcome: Result<(), Error>) -> bool {
    outcome is Err && !effect.forgiving
}

/// The verdict over wrappers that were all applied, the outcomes collected in the order of the
/// wrappers from position `from` on: the first failure that is not forgiven, or success.
/// A wrapper without an outcome, or an outcome without a wrapper, counts for nothing.
pub open spec fn verdict_from(effects: Seq<Effect>, outcomes: Seq<Result<(), Error>>, from: int) -> Result<
    (),
    Error,
>
    decreases effects.len() - from,
{
    if from < 0 || from >= effects.len() || from >= outcomes.len() {
        Ok(())
    } else if is_fatal(effects[from], outcomes[from]) {
        outcomes[from]
    } else {
        verdict_from(effects, outcomes, from + 1)
    }
}

/// The verdict of a concurrent execution whose outcomes were collected in wrapper order.
pub open spec fn concurrent_verdict(effects: Seq<Effect>, outcomes: Seq<Result<(), Error>>) -> Result<
    (),
    Error,
> {
    verdict_from(effects, outcomes, 0)
}

/// A sequential execution in progress: the drained wrappers, how many of them have been
/// applied, and the failure that stopped the execution, if one did.
#[derive(Debug)]
pub struct SequentialRun {
    pub effects: Vec<Effect>,
    pub cursor: usize,
    pub failure: Option<Error>,
}

impl SequentialRun {
    /// Nothing is left to apply: a failure stopped the execution, or every wrapper was applied.
    pub open spec fn finished(self) -> bool {
        self.failure is Some || self.cursor >= self.effects@.len()
    }

    /// The description to apply next, if any.
    pub open spec fn next_up(self) -> Option<EffectKind> {
        if self.finished() {
            None
        } else {
            Some(self.effects@[self.cursor as int].effect_kind)
        }
    }

    /// The state after the pending description was applied with `outcome`.
    /// A finished execution takes no further outcome.
    pub open spec fn after(self, outcome: Result<(), Error>) -> SequentialRun {
        if self.finished() {
            self
        } else {
            SequentialRun {
                effects: self.effects,
                cursor: (self.cursor + 1) as usize,
                failure: if is_fatal(self.effects@[self.cursor as int], outcome) {
                    Some(outcome->Err_0)
                } else {
                    None
                },
            }
        }
    }

    /// The state after the outcomes were recorded one after the other.
    pub open spec fn after_all(self, outcomes: Seq<Result<(), Error>>) -> SequentialRun
        decreases outcomes.len(),
    {
        if outcomes.len() == 0 {
            self
        } else {
            self.after(outcomes[0]).after_all(outcomes.drop_first())
        }
    }

    /// What the execution reports: the failure that stopped it, or success.
    pub open spec fn verdict(self) -> Result<(), Error> {
        match self.failure {
            Some(error) => Err(error),
            None => Ok(()),
        }
    }

    /// The description that the executor must apply now; `None` once the execution is finished.
    pub fn pending(&self) -> (next: Option<&EffectKind>)
        ensures
            next is Some <==> !self.finished(),
            next matches Some(kind) ==> Some(*kind) == self.next_up(),
    {
        if self.failure.is_some() || self.cursor >= self.effects.len() {
            None
        } else {
            Some(&self.effects[self.cursor].effect_kind)
        }
    }

    /// Takes the outcome of applying the pending description: a failure that is not forgiven
    /// stops the execution, any other outcome moves it to the next wrapper.
    pub fn record(&mut self, outcome: Result<(), Error>)
        ensures
            *final(self) == old(self).after(outcome),
    {
        if self.failure.is_some() || self.cursor >= self.effects.len() {
            return ;
        }
        let forgiving = self.effects[self.cursor].forgiving;
        self.cursor = self.cursor + 1;
        match outcome {
            Err(error) => {
                if !forgiving {
                    self.failure = Some(error);
                }
            },
            Ok(()) => {},
        }
    }

    /// The verdict of a finished execution; `None` while a description is pending.
    pub fn result(self) -> (verdict: Option<Result<(), Error>>)
        ensures
            verdict == if self.finished() {
                Some(self.verdict())
            } else {
                None
            },
    {
        if self.failure.is_some() {
            match self.failure {
                Some(error) => Some(Err(error)),
                None => None,
            }
        } else if self.cursor >= self.effects.len() {
            Some(Ok(()))
        } else {
            None
        }
    }
}

impl EffectMachine {
    /// Starts the sequential execution, which drains the machine front to back.
    /// The executor applies what [`SequentialRun::pending`] names and reports each outcome
    /// with [`SequentialRun::record`]; effects already applied are never rolled back.
    pub fn run(self) -> (run: SequentialRun)
        ensures
            run.effects == self.0,
            run.cursor == 0,
            run.failure is None,
    {
        SequentialRun { effects: self.0, cursor: 0, failure: None }
    }

    /// Folds the outcomes of a concurrent execution into its verdict.
    /// The executor starts every wrapper before it collects any outcome, and hands the
    /// outcomes over in the order of the wrappers. A failure therefore preempts nothing:
    /// the verdict is the first failure in wrapper order that is not forgiven, while the
    /// wrappers behind it may already have done their work. This is a weaker guarantee
    /// than that of [`EffectMachine::run`], and nobody may place wrappers here whose order
    /// matters.
    pub fn async_run(&self, outcomes: Vec<Result<(), Error>>) -> (verdict: Result<(), Error>)
        ensures
            verdict == concurrent_verdict(self.0@, outcomes@),
    {
        let mut outcomes = outcomes;
        let ghost collected = outcomes@;
        let mut verdict: Result<(), Error> = Ok(());
        while outcomes.len() > 0
            invariant
                outcomes@ == collected.take(outcomes@.len() as int),
                outcomes@.len() <= collected.len(),
                verdict == verdict_from(self.0@, collected, outcomes@.len() as int),
            decreases outcomes@.len(),
        {
            let at: usize = outcomes.len() - 1;
            let outcome = outcomes.pop();
            if at < self.0.len() {
                match outcome {
                    Some(Err(error)) => {
                        if !self.0[at].forgiving {
                            verdict = Err(error);
                        }
                    },
                    _ => {},
                }
            }
            assert(outcomes@ == collected.take(outcomes@.len() as int));
        }
        verdict
    }
}

/// A finished execution stays as it is, whatever is reported to it.
pub proof fn lemma_finished_is_final(run: SequentialRun, outcomes: Seq<Result<(), Error>>)
    requires
        run.finished(),
    ensures
        run.after_all(outcomes) == run,
    decreases outcomes.len(),
{
    if outcomes.len() > 0 {
        lemma_finished_is_final(run, outcomes.drop_first());
    }
}

/// Recording one sequence of outcomes and then another is recording them all in turn.
pub proof fn lemma_after_all_concat(
    run: SequentialRun,
    earlier: Seq<Result<(), Error>>,
    later: Seq<Result<(), Error>>,
)
    ensures
        run.after_all(earlier + later) == run.after_all(earlier).after_all(later),
    decreases earlier.len(),
{
    if earlier.len() == 0 {
        assert(earlier + later =~= later);
    } else {
        assert((earlier + later).drop_first() =~= earlier.drop_first() + later);
        lemma_after_all_concat(run.after(earlier[0]), earlier.drop_first(), later);
    }
}

/// Sequential execution applies the wrappers in the order in which they were appended:
/// while no failure goes unforgiven, the description handed out after `done` outcomes is the
/// one appended at position `done`, and once every wrapper is applied the execution
/// reports success.
pub proof fn lemma_applies_in_append_order(
    run: SequentialRun,
    outcomes: Seq<Result<(), Error>>,
    done: int,
)
    requires
        run.failure is None,
        0 <= done <= outcomes.len(),
        run.cursor + done <= run.effects@.len(),
        forall|j: int|
            0 <= j < done ==> !is_fatal(#[trigger] run.effects@[run.cursor + j], outcomes[j]),
    ensures
        ({
            let now = run.after_all(outcomes.take(done));
            &&& now.effects == run.effects
            &&& now.cursor == run.cursor + done
            &&& now.failure is None
            &&& now.cursor < run.effects@.len() ==> now.next_up() == Some(
                run.effects@[run.cursor + done].effect_kind,
            )
            &&& now.cursor == run.effects@.len() ==> now.finished() && now.verdict() == Ok::<
                (),
                Error,
            >(())
        }),
    decreases done,
{
    assert(run.effects@.len() == run.effects.len());
    if done == 0 {
        assert(outcomes.take(0) =~= Seq::<Result<(), Error>>::empty());
    } else {
        let step = run.after(outcomes[0]);
        assert(!is_fatal(run.effects@[run.cursor + 0], outcomes[0]));
        assert(outcomes.take(done).drop_first() =~= outcomes.drop_first().take(done - 1));
        assert forall|j: int| 0 <= j < done - 1 implies !is_fatal(
            #[trigger] step.effects@[step.cursor + j],
            outcomes.drop_first()[j],
        ) by {
            assert(!is_fatal(run.effects@[run.cursor + (j + 1)], outcomes[j + 1]));
        }
        lemma_applies_in_append_order(step, outcomes.drop_first(), done - 1);
    }
}

/// Sequential execution stops at the first failure that is not forgiven: that failure is what
/// the execution reports, the wrappers behind it are never handed out, and nothing reported
/// later changes the verdict.
pub proof fn lemma_stops_at_first_fatal(
    run: SequentialRun,
    outcomes: Seq<Result<(), Error>>,
    at: int,
)
    requires
        run.failure is None,
        0 <= at < outcomes.len(),
        run.cursor + at < run.effects@.len(),
        forall|j: int|
            0 <= j < at ==> !is_fatal(#[trigger] run.effects@[run.cursor + j], outcomes[j]),
        is_fatal(run.effects@[run.cursor + at], outcomes[at]),
    ensures
        ({
            let end = run.after_all(outcomes);
            &&& end.finished()
            &&& end.next_up() is None
            &&& end.cursor == run.cursor + at + 1
            &&& end.verdict() == outcomes[at]
        }),
{
    assert(run.effects@.len() == run.effects.len());
    let before = outcomes.take(at);
    let rest = outcomes.skip(at);
    assert(outcomes =~= before + rest);
    lemma_applies_in_append_order(run, outcomes, at);
    lemma_after_all_concat(run, before, rest);
    let stopped = run.after_all(before).after(rest[0]);
    assert(rest[0] == outcomes[at]);
    lemma_finished_is_final(stopped, rest.drop_first());
}

/// A failure that is not forgiven ends a sequential execution at once and the wrapper behind
/// it is never handed out. A forgiven failure hands out the next wrapper, whose own outcome
/// then decides what the execution reports.
pub proof fn lemma_forgiving_semantics(
    run: SequentialRun,
    first: Effect,
    second: Effect,
    first_outcome: Result<(), Error>,
    second_outcome: Result<(), Error>,
)
    requires
        run.effects@ == seq![first, second],
        run.cursor == 0,
        run.failure is None,
        first_outcome is Err,
    ensures
        ({
            let then = run.after(first_outcome);
            let end = then.after(second_outcome);
            &&& run.next_up() == Some(first.effect_kind)
            &&& !first.forgiving ==> then.finished() && then.next_up() is None && then.verdict()
                == first_outcome && end == then
            &&& first.forgiving ==> then.next_up() == Some(second.effect_kind) && end.finished()
                && end.verdict() == if is_fatal(second, second_outcome) {
                second_outcome
            } else {
                Ok(())
            }
        }),
{
}

proof fn lemma_verdict_of_rest(run: SequentialRun, outcomes: Seq<Result<(), Error>>)
    requires
        run.failure is None,
        run.cursor <= outcomes.len(),
    ensures
        run.after_all(outcomes.skip(run.cursor as int)).verdict() == verdict_from(
            run.effects@,
            outcomes,
            run.cursor as int,
        ),
    decreases outcomes.len() - run.cursor,
{
    assert(run.effects@.len() == run.effects.len());
    let rest = outcomes.skip(run.cursor as int);
    if run.cursor >= run.effects@.len() {
        lemma_finished_is_final(run, rest);
    } else if run.cursor < outcomes.len() {
        let step = run.after(rest[0]);
        assert(rest.drop_first() =~= outcomes.skip(step.cursor as int));
        if is_fatal(run.effects@[run.cursor as int], rest[0]) {
            lemma_finished_is_final(step, rest.drop_first());
        } else {
            lemma_verdict_of_rest(step, outcomes);
        }
    }
}

/// Given the same outcomes, the sequential and the concurrent execution report the same
/// verdict; they differ in which wrappers were applied by then.
pub proof fn lemma_sequential_agrees_with_concurrent(
    run: SequentialRun,
    outcomes: Seq<Result<(), Error>>,
)
    requires
        run.cursor == 0,
        run.failure is None,
    ensures
        run.after_all(outcomes).verdict() == concurrent_verdict(run.effects@, outcomes),
{
    assert(outcomes.skip(0) =~= outcomes);
    lemma_verdict_of_rest(run, outcomes);
}

} // verus!

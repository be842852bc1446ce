use std::collections::HashMap;
use vstd::prelude::*;

use crate::effects::{EffectKind, EffectKindView, EffectMachine, EffectView};
use crate::files::{file_name, parent, path_file_name, path_parent};
use crate::text::{decimal, decimal_text, extend_texts, push_text};

verus! {

/// What can go wrong around the version-control binary.
#[derive(Clone, Debug, PartialEq, Eq)]
pub enum Error {
    /// The current working directory could not be read; the payload is the system's message.
    CouldNotGetCWD(String),
    /// No repository encloses the path; the payload is the discovery's message.
    CouldNotGetGitRoot(String),
    CouldNotGetGitRootName,
    DirectoryNameIsNotValidUTF8,
    DirectoryParentIsNotFound,
    /// The binary could not be started; the payload is the system's message.
    CommandCouldNotBeRan(String),
    CommandReturnedNon0StatusCode(i32),
}

impl Error {
    /// The text of [`Error::to_string`].
    pub open spec fn text(self) -> Seq<char> {
        match self {
            Error::CouldNotGetCWD(cause) => "could not get current working directory "@ + cause@,
            Error::CouldNotGetGitRoot(_) => "could not find a git root"@,
            Error::CouldNotGetGitRootName => "could not get the directory name of the git project for some reason"@,
            Error::DirectoryNameIsNotValidUTF8 => "directory name is not a valid utf-8"@,
            Error::DirectoryParentIsNotFound => "directory parent is not found"@,
            Error::CommandCouldNotBeRan(cause) => "error running the command: "@ + cause@,
            Error::CommandReturnedNon0StatusCode(code) => "command returned non-zero status: "@
                + decimal(code as int),
        }
    }

    /// What went wrong, in words for the operator.
    pub fn to_string(&self) -> (text: String)
        ensures
            text@ == self.text(),
    {
        match self {
            Error::CouldNotGetCWD(cause) => "could not get current working directory ".to_owned().concat(
                cause.as_str(),
            ),
            Error::CouldNotGetGitRoot(_) => "could not find a git root".to_owned(),
            Error::CouldNotGetGitRootName => {
                "could not get the directory name of the git project for some reason".to_owned()
            },
            Error::DirectoryNameIsNotValidUTF8 => "directory name is not a valid utf-8".to_owned(),
            Error::DirectoryParentIsNotFound => "directory parent is not found".to_owned(),
            Error::CommandCouldNotBeRan(cause) => "error running the command: ".to_owned().concat(
                cause.as_str(),
            ),
            Error::CommandReturnedNon0StatusCode(code) => {
                "command returned non-zero status: ".to_owned().concat(
                    decimal_text(*code as i128).as_str(),
                )
            },
        }
    }
}

/// The root of the working copy that the discovery found, or why there is none.
pub open spec fn root_of(discovered: Result<String, String>, root: Result<String, Error>) -> bool {
    match discovered {
        Ok(repository) => match path_parent(repository@) {
            Some(directory) => root is Ok && root->Ok_0@ == directory,
            None => root == Err::<String, Error>(Error::DirectoryParentIsNotFound),
        },
        Err(cause) => root is Err && root->Err_0 is CouldNotGetGitRoot
            && root->Err_0->CouldNotGetGitRoot_0@ == cause@,
    }
}

/// The root of the working copy: the directory above the repository's own directory.
/// `discovered` is what the search upwards from a path gave: the repository's directory, or
/// the message of the search, which comes back as `CouldNotGetGitRoot`. A repository
/// directory with nothing above it is `DirectoryParentIsNotFound`.
pub fn repo_root(discovered: Result<String, String>) -> (root: Result<String, Error>)
    ensures
        root_of(discovered, root),
{
    match discovered {
        Ok(repository) => match parent(repository.as_str()) {
            Some(directory) => Ok(directory),
            None => Err(Error::DirectoryParentIsNotFound),
        },
        Err(cause) => Err(Error::CouldNotGetGitRoot(cause)),
    }
}

/// The name of the working copy's root directory, which serves as the project's name.
/// A failed search comes back as [`repo_root`] gives it; a root without a final component
/// is `CouldNotGetGitRootName`.
pub fn repo_directory_name(discovered: Result<String, String>) -> (name: Result<String, Error>)
    ensures
        exists|root: Result<String, Error>|
            #![trigger root_of(discovered, root)]
            root_of(discovered, root) && match root {
                Ok(directory) => match path_file_name(directory@) {
                    Some(last) => name is Ok && name->Ok_0@ == last,
                    None => name == Err::<String, Error>(Error::CouldNotGetGitRootName),
                },
                Err(error) => name == Err::<String, Error>(error),
            },
{
    let root = repo_root(discovered);
    match root {
        Ok(git_root) => match file_name(git_root.as_str()) {
            Some(project_name) => {
                assert(root_of(discovered, root));
                Ok(project_name)
            },
            None => {
                assert(root_of(discovered, root));
                Err(Error::CouldNotGetGitRootName)
            },
        },
        Err(error) => {
            assert(root_of(discovered, root));
            Err(error)
        },
    }
}

/// The description of one invocation of the version-control binary inside `repo`.
pub open spec fn git_command(repo: Seq<char>, rest: Seq<Seq<char>>) -> EffectKindView {
    EffectKindView::RunExternalCommand {
        program: "git"@,
        args: seq!["-C"@, repo] + rest,
        env: Map::empty(),
    }
}

pub open spec fn add_view(repo: Seq<char>, files: Seq<Seq<char>>) -> EffectKindView {
    git_command(repo, seq!["add"@] + files)
}

pub open spec fn commit_view(repo: Seq<char>, commit_message: Seq<char>) -> EffectKindView {
    git_command(repo, seq!["commit"@, "-m"@, commit_message])
}

pub open spec fn pull_view(repo: Seq<char>) -> EffectKindView {
    git_command(repo, seq!["pull"@])
}

pub open spec fn push_view(repo: Seq<char>) -> EffectKindView {
    git_command(repo, seq!["push"@])
}

/// The four steps that carry a change to the remote, in the one order that is valid:
/// stage, commit, pull, push. None of them is forgiving.
pub open spec fn sync_chain(repo: Seq<char>, files: Seq<Seq<char>>, commit_message: Seq<char>) -> Seq<
    EffectView,
> {
    seq![
        EffectView { effect_kind: add_view(repo, files), forgiving: false },
        EffectView { effect_kind: commit_view(repo, commit_message), forgiving: false },
        EffectView { effect_kind: pull_view(repo), forgiving: false },
        EffectView { effect_kind: push_view(repo), forgiving: false },
    ]
}

fn empty_env() -> (env: HashMap<String, String>)
    ensures
        env.deep_view() == Map::<Seq<char>, Seq<char>>::empty(),
{
    let env = HashMap::new();
    proof {
        vstd::std_specs::hash::lemma_hashmap_deepview_dom(env);
        assert(env.deep_view() =~= Map::<Seq<char>, Seq<char>>::empty());
    }
    env
}

fn in_repo(repo: &str) -> (args: Vec<String>)
    ensures
        args.deep_view() == seq!["-C"@, repo@],
{
    let mut args: Vec<String> = Vec::new();
    args.push("-C".to_owned());
    args.push(repo.to_owned());
    assert(args.deep_view() =~= seq!["-C"@, repo@]);
    args
}

/// Stages the files in the repository at `repo`.
pub fn add(repo: &str, files: &[String]) -> (effect: EffectKind)
    ensures
        effect@ == add_view(repo@, files.deep_view()),
{
    let mut args = in_repo(repo);
    push_text(&mut args, "add".to_owned());
    extend_texts(&mut args, files);
    assert(args.deep_view() =~= seq!["-C"@, repo@] + (seq!["add"@] + files.deep_view()));
    EffectKind::RunExternalCommand("git".to_owned(), args, empty_env())
}

/// Commits what is staged in the repository at `repo` under the given message.
pub fn commit(repo: &str, commit_message: &str) -> (effect: EffectKind)
    ensures
        effect@ == commit_view(repo@, commit_message@),
{
    let mut args = in_repo(repo);
    args.push("commit".to_owned());
    args.push("-m".to_owned());
    args.push(commit_message.to_owned());
    assert(args.deep_view() =~= seq!["-C"@, repo@] + seq!["commit"@, "-m"@, commit_message@]);
    EffectKind::RunExternalCommand("git".to_owned(), args, empty_env())
}

/// Pushes the repository at `repo` to its remote.
pub fn push(repo: &str) -> (effect: EffectKind)
    ensures
        effect@ == push_view(repo@),
{
    let mut args = in_repo(repo);
    args.push("push".to_owned());
    assert(args.deep_view() =~= seq!["-C"@, repo@] + seq!["push"@]);
    EffectKind::RunExternalCommand("git".to_owned(), args, empty_env())
}

/// Pulls from the remote into the repository at `repo`.
pub fn pull(repo: &str) -> (effect: EffectKind)
    ensures
        effect@ == pull_view(repo@),
{
    let mut args = in_repo(repo);
    args.push("pull".to_owned());
    assert(args.deep_view() =~= seq!["-C"@, repo@] + seq!["pull"@]);
    EffectKind::RunExternalCommand("git".to_owned(), args, empty_env())
}

/// Appends the synchronization chain for the changed files to `machine`.
pub fn sync_change(machine: &mut EffectMachine, repo_root: &str, files: &[String], commit_message: &str)
    ensures
        final(machine)@ == old(machine)@ + sync_chain(repo_root@, files.deep_view(), commit_message@),
{
    machine.add(self::add(repo_root, files), false);
    machine.add(commit(repo_root, commit_message), false);
    machine.add(pull(repo_root), false);
    machine.add(push(repo_root), false);
    assert(machine@ =~= old(machine)@ + sync_chain(
        repo_root@,
        files.deep_view(),
        commit_message@,
    ));
}

/// A machine that holds the synchronization chain and nothing else: always four wrappers,
/// however many files are staged.
pub fn full_hook(repo_root: &str, files: &[String], commit_message: &str) -> (machine: EffectMachine)
    ensures
        machine@ == sync_chain(repo_root@, files.deep_view(), commit_message@),
        machine@.len() == 4,
{
    let mut machine = EffectMachine::default();
    sync_change(&mut machine, repo_root, files, commit_message);
    assert(machine@ =~= sync_chain(repo_root@, files.deep_view(), commit_message@));
    machine
}

} // verus!

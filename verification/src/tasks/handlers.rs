use vstd::prelude::*;

use super::error::Error;
use super::task::{print_colorful_outcome, State, StateView, Task, TaskView};
use super::tasklist::{TaskDescription, TaskDescriptionView, TaskList};
use crate::effects::{
    CreateDirOpts, EffectKind, EffectKindView, EffectMachine, EffectView, FileWriterOpts,
};
use crate::git::{sync_chain, sync_change};
use crate::style::{
    black, black_text, bold, bold_text, on_bright_blue, on_bright_blue_text, on_red, on_red_text,
};
use crate::timeutils::Date;
use crate::files::{join_path, joined_path};
use crate::text::{
    contains_text, decimal, decimal_text, is_infix, occurs_at, lemma_deep_view_push, lemma_deep_view_take_next, same_text,
};

verus! {

/// The identifier occurs somewhere in the decimal text of the id.
pub open spec fn id_matches(id: int, identifier: Seq<char>) -> bool {
    is_infix(decimal(id), identifier)
}

/// The tasks whose id the identifier matches, in the order of the list.
pub open spec fn matching(tasks: Seq<TaskDescriptionView>, identifier: Seq<char>) -> Seq<
    TaskDescriptionView,
> {
    tasks.filter(|t: TaskDescriptionView| id_matches(t.task.id, identifier))
}

/// The whole decimal text of an id matches that id, and so does the empty identifier.
pub proof fn lemma_whole_id_matches(id: int)
    ensures
        id_matches(id, decimal(id)),
        id_matches(id, Seq::empty()),
{
    let text = decimal(id);
    assert(text.subrange(0, text.len() as int) =~= text);
    assert(occurs_at(text, text, 0));
    assert(text.subrange(0, 0) =~= Seq::<char>::empty());
    assert(occurs_at(text, Seq::empty(), 0));
}

/// An identifier that matches one task of a list and no other resolves to that task.
pub proof fn lemma_single_match_resolves(
    tasks: Seq<TaskDescriptionView>,
    identifier: Seq<char>,
    at: int,
)
    requires
        0 <= at < tasks.len(),
        forall|i: int|
            0 <= i < tasks.len() ==> (id_matches((#[trigger] tasks[i]).task.id, identifier) <==> i
                == at),
    ensures
        matching(tasks, identifier) == seq![tasks[at]],
    decreases tasks.len(),
{
    reveal(Seq::filter);
    let keep = |t: TaskDescriptionView| id_matches(t.task.id, identifier);
    let earlier = tasks.drop_last();
    if at == tasks.len() - 1 {
        assert forall|i: int| 0 <= i < earlier.len() implies !keep(#[trigger] earlier[i]) by {
            assert(earlier[i] == tasks[i]);
        }
        earlier.lemma_all_neg_filter_empty(keep);
        assert(earlier.filter(keep) =~= Seq::<TaskDescriptionView>::empty());
        assert(matching(tasks, identifier) =~= seq![tasks[at]]);
    } else {
        assert forall|i: int| 0 <= i < earlier.len() implies (id_matches(
            (#[trigger] earlier[i]).task.id,
            identifier,
        ) <==> i == at) by {
            assert(earlier[i] == tasks[i]);
        }
        lemma_single_match_resolves(earlier, identifier, at);
        assert(earlier[at] == tasks[at]);
        assert(!keep(tasks.last()));
    }
}

/// Resolves an identifier to the one task whose id contains it.
/// No such task is `NoTasksFound`; more than one is `MoreThanOneTaskWasFound`, which
/// carries all of them in the order of the list.
pub fn find_task(tasks_list: &TaskList, task_identifier: &str) -> (found: Result<TaskDescription, Error>)
    ensures
        ({
            let hits = matching(tasks_list@, task_identifier@);
            &&& hits.len() == 0 ==> found == Err::<TaskDescription, Error>(Error::NoTasksFound)
            &&& hits.len() == 1 ==> found is Ok && found->Ok_0@ == hits[0]
            &&& hits.len() > 1 ==> found is Err && found->Err_0 is MoreThanOneTaskWasFound
                && found->Err_0->MoreThanOneTaskWasFound_0.deep_view() == hits
        }),
{
    let mut hits: Vec<TaskDescription> = Vec::new();
    let mut i: usize = 0;
    proof {
        reveal(Seq::filter);
        assert(tasks_list@.take(0) =~= Seq::<TaskDescriptionView>::empty());
        assert(hits.deep_view() =~= Seq::<TaskDescriptionView>::empty());
    }
    while i < tasks_list.0.len()
        invariant
            i <= tasks_list.0.len(),
            hits.deep_view() == matching(tasks_list@.take(i as int), task_identifier@),
        decreases tasks_list.0.len() - i,
    {
        let id_text = decimal_text(tasks_list.0[i].task.id as i128);
        let ghost before = hits;
        let hit = contains_text(id_text.as_str(), task_identifier);
        if hit {
            let description = tasks_list.0[i].clone();
            hits.push(description);
            proof {
                lemma_deep_view_push(before, hits, description);
            }
        }
        proof {
            reveal(Seq::filter);
            lemma_deep_view_take_next(tasks_list.0, i as int);
            assert(tasks_list@.take(i + 1).drop_last() =~= tasks_list@.take(i as int));
        }
        i = i + 1;
    }
    assert(tasks_list@.take(tasks_list.0.len() as int) =~= tasks_list@);
    if hits.len() > 1 {
        return Err(Error::MoreThanOneTaskWasFound(Box::new(hits)));
    }
    match hits.pop() {
        Some(task) => Ok(task),
        None => Err(Error::NoTasksFound),
    }
}

/// The message of the commit that records a change of state.
pub open spec fn mark_message(id: int, state: StateView) -> Seq<char> {
    "feat: updated task "@ + decimal(id) + " to the new state "@ + state.label()
}

/// What marking does to the repository: the task's file is overwritten in place, never
/// created, and the change is carried to the remote.
pub open spec fn mark_view(
    task_dir: Seq<char>,
    marked: TaskDescriptionView,
    document: Seq<char>,
    state: StateView,
    repo_root: Seq<char>,
) -> Seq<EffectView> {
    let file_path = joined_path(task_dir, marked.file_name);
    seq![
        EffectView {
            effect_kind: EffectKindView::WriteToFile {
                content: vstd::utf8::encode_utf8(document),
                file_path,
                can_create: false,
                can_overwrite: true,
            },
            forgiving: false,
        },
    ] + sync_chain(repo_root, seq![file_path], mark_message(marked.task.id, state))
}

/// Describes how a task that was marked with `state` reaches its file and the remote.
/// `document` is what serializing the marked task gave: the stored form, or the serializer's
/// message, which comes back as `FileCouldNotSerializeEntryIntoJson` with the file's name.
pub fn mark_effects(
    task_dir: &str,
    marked: &TaskDescription,
    document: Result<String, String>,
    state: &State,
    repo_root: &str,
) -> (effects: Result<EffectMachine, Error>)
    ensures
        match document {
            Ok(text) => effects is Ok && effects->Ok_0@ == mark_view(
                task_dir@,
                marked@,
                text@,
                state@,
                repo_root@,
            ),
            Err(cause) => effects is Err && effects->Err_0 is FileCouldNotSerializeEntryIntoJson
                && effects->Err_0->FileCouldNotSerializeEntryIntoJson_0@ == cause@
                && effects->Err_0->FileCouldNotSerializeEntryIntoJson_1@ == marked@.file_name,
        },
{
    let text = match document {
        Ok(text) => text,
        Err(cause) => {
            return Err(Error::FileCouldNotSerializeEntryIntoJson(cause, marked.file_name.clone()));
        },
    };
    let file_path = join_path(task_dir, marked.file_name.as_str());
    let mut effects = EffectMachine::default();
    effects.add(
        EffectKind::WriteToFile(
            FileWriterOpts {
                content: text.as_str().as_bytes_vec(),
                file_path: file_path.clone(),
                can_create: false,
                can_overwrite: true,
            },
        ),
        false,
    );
    let mut message = "feat: updated task ".to_owned();
    message.append(decimal_text(marked.task.id as i128).as_str());
    message.append(" to the new state ");
    message.append(state.to_string().as_str());
    let mut files: Vec<String> = Vec::new();
    files.push(file_path);
    assert(files.deep_view() =~= seq![joined_path(task_dir@, marked@.file_name)]);
    sync_change(&mut effects, repo_root, files.as_slice(), message.as_str());
    assert(effects@ =~= mark_view(task_dir@, marked@, text@, state@, repo_root@));
    Ok(effects)
}

/// What [`mark_effects`] ensures of its result.
pub open spec fn mark_result(
    task_dir: Seq<char>,
    marked: TaskDescriptionView,
    document: Result<String, String>,
    state: StateView,
    repo_root: Seq<char>,
    effects: Result<EffectMachine, Error>,
) -> bool {
    match document {
        Ok(text) => effects is Ok && effects->Ok_0@ == mark_view(
            task_dir,
            marked,
            text@,
            state,
            repo_root,
        ),
        Err(cause) => effects is Err && effects->Err_0 is FileCouldNotSerializeEntryIntoJson
            && effects->Err_0->FileCouldNotSerializeEntryIntoJson_0@ == cause@
            && effects->Err_0->FileCouldNotSerializeEntryIntoJson_1@ == marked.file_name,
    }
}

/// The description of a task after `state` was appended to its history.
pub open spec fn marked_view(found: TaskDescriptionView, state: StateView) -> TaskDescriptionView {
    TaskDescriptionView {
        task: TaskView { state_log: found.task.state_log.push(state), ..found.task },
        file_name: found.file_name,
    }
}

/// What marking by one identifier comes to. An identifier that matches no task or several
/// gives the error of [`find_task`]. One that matches a single task has `state` appended to
/// that task, the marked task serialized by `serialize`, and gives what [`mark_effects`]
/// makes of the serializer's answer.
pub open spec fn marked_as<F: Fn(&Task) -> Result<String, String>>(
    task_dir: Seq<char>,
    tasks: Seq<TaskDescriptionView>,
    state: StateView,
    repo_root: Seq<char>,
    identifier: Seq<char>,
    serialize: F,
    effects: Result<EffectMachine, Error>,
) -> bool {
    let hits = matching(tasks, identifier);
    if hits.len() == 0 {
        effects == Err::<EffectMachine, Error>(Error::NoTasksFound)
    } else if hits.len() > 1 {
        effects is Err && effects->Err_0 is MoreThanOneTaskWasFound
            && effects->Err_0->MoreThanOneTaskWasFound_0.deep_view() == hits
    } else {
        exists|task: Task, document: Result<String, String>|
            task@ == marked_view(hits[0], state).task && #[trigger] call_ensures(
                serialize,
                (&task,),
                document,
            ) && mark_result(task_dir, marked_view(hits[0], state), document, state, repo_root, effects)
    }
}

fn mark_one<F: Fn(&Task) -> Result<String, String>>(
    task_dir: &str,
    tasks_list: &TaskList,
    state: &State,
    repo_root: &str,
    task_identifier: &str,
    serialize: &F,
) -> (effects: Result<EffectMachine, Error>)
    requires
        forall|task: &Task| call_requires(*serialize, (task,)),
    ensures
        marked_as(
            task_dir@,
            tasks_list@,
            state@,
            repo_root@,
            task_identifier@,
            *serialize,
            effects,
        ),
{
    let found = match find_task(tasks_list, task_identifier) {
        Ok(found) => found,
        Err(error) => {
            proof {
                matching(tasks_list@, task_identifier@).lemma_filter_len(
                    |t: TaskDescriptionView| id_matches(t.task.id, task_identifier@),
                );
            }
            return Err(error);
        },
    };
    let the_task_description = TaskDescription {
        task: found.task.mark(state.clone()),
        file_name: found.file_name,
    };
    let document = serialize(&the_task_description.task);
    mark_effects(task_dir, &the_task_description, document, state, repo_root)
}

/// Marks the task behind each identifier with `state`, each identifier for itself: the
/// outcome at a position belongs to the identifier at that position, and an identifier that
/// matches no task or several takes nothing from the others.
pub fn mark_task_as<F: Fn(&Task) -> Result<String, String>>(
    task_dir: &str,
    tasks_list: &TaskList,
    state: &State,
    repo_root: &str,
    task_identifier: &[String],
    serialize: F,
) -> (outcomes: Vec<Result<EffectMachine, Error>>)
    requires
        forall|task: &Task| call_requires(serialize, (task,)),
    ensures
        outcomes@.len() == task_identifier@.len(),
        forall|k: int|
            0 <= k < outcomes@.len() ==> marked_as(
                task_dir@,
                tasks_list@,
                state@,
                repo_root@,
                task_identifier@[k]@,
                serialize,
                #[trigger] outcomes@[k],
            ),
{
    let mut outcomes: Vec<Result<EffectMachine, Error>> = Vec::new();
    let mut i: usize = 0;
    while i < task_identifier.len()
        invariant
            i <= task_identifier.len(),
            outcomes@.len() == i,
            forall|task: &Task| call_requires(serialize, (task,)),
            forall|k: int|
                0 <= k < i ==> marked_as(
                    task_dir@,
                    tasks_list@,
                    state@,
                    repo_root@,
                    task_identifier@[k]@,
                    serialize,
                    #[trigger] outcomes@[k],
                ),
        decreases task_identifier.len() - i,
    {
        let effects = mark_one(
            task_dir,
            tasks_list,
            state,
            repo_root,
            task_identifier[i].as_str(),
            &serialize,
        );
        outcomes.push(effects);
        i = i + 1;
    }
    outcomes
}

/// The message of the commit that records a new task.
pub open spec fn new_task_message(id: int) -> Seq<char> {
    "feat(tasks): add new task file  "@ + decimal(id)
}

/// What creating a task does: the directory is made sure of, the task's file is created,
/// never overwritten, and the change is carried to the remote.
pub open spec fn new_task_view(
    task_dir: Seq<char>,
    id: int,
    file_name: Seq<char>,
    document: Seq<char>,
    repo_root: Seq<char>,
) -> Seq<EffectView> {
    let file_path = joined_path(task_dir, file_name);
    seq![
        EffectView {
            effect_kind: EffectKindView::CreateDir { folder_path: task_dir, ok_if_exists: true },
            forgiving: false,
        },
        EffectView {
            effect_kind: EffectKindView::WriteToFile {
                content: vstd::utf8::encode_utf8(document),
                file_path,
                can_create: true,
                can_overwrite: false,
            },
            forgiving: false,
        },
    ] + sync_chain(repo_root, seq![file_path], new_task_message(id))
}

/// Describes the creation of the task `t`.
/// `file_name` is what formatting the creation time gave and `document` what serializing
/// the task gave; in each, `Err` holds the message of the step that failed. A failed file
/// name comes back as `CouldNotFormatToFileName`; after that, a failed document as
/// `FileCouldNotSerializeEntryIntoJson` with the file's name.
pub fn new_task(
    task_dir: &str,
    t: &Task,
    repo_root: &str,
    file_name: Result<String, String>,
    document: Result<String, String>,
) -> (effects: Result<EffectMachine, Error>)
    ensures
        match (file_name, document) {
            (Err(cause), _) => effects is Err && effects->Err_0 is CouldNotFormatToFileName
                && effects->Err_0->CouldNotFormatToFileName_0@ == cause@,
            (Ok(name), Err(cause)) => effects is Err
                && effects->Err_0 is FileCouldNotSerializeEntryIntoJson
                && effects->Err_0->FileCouldNotSerializeEntryIntoJson_0@ == cause@
                && effects->Err_0->FileCouldNotSerializeEntryIntoJson_1@ == name@,
            (Ok(name), Ok(text)) => effects is Ok && effects->Ok_0@ == new_task_view(
                task_dir@,
                t.id as int,
                name@,
                text@,
                repo_root@,
            ),
        },
{
    let file_name = match file_name {
        Ok(name) => name,
        Err(cause) => {
            return Err(Error::CouldNotFormatToFileName(cause));
        },
    };
    let file_path = join_path(task_dir, file_name.as_str());
    let mut effects = EffectMachine::default();
    effects.add(
        EffectKind::CreateDir(CreateDirOpts { folder_path: task_dir.to_owned(), ok_if_exists: true }),
        false,
    );
    let text = match document {
        Ok(text) => text,
        Err(cause) => {
            return Err(Error::FileCouldNotSerializeEntryIntoJson(cause, file_name));
        },
    };
    effects.add(
        EffectKind::WriteToFile(
            FileWriterOpts {
                content: text.as_str().as_bytes_vec(),
                file_path: file_path.clone(),
                can_create: true,
                can_overwrite: false,
            },
        ),
        false,
    );
    let mut message = "feat(tasks): add new task file  ".to_owned();
    message.append(decimal_text(t.id as i128).as_str());
    let mut files: Vec<String> = Vec::new();
    files.push(file_path);
    assert(files.deep_view() =~= seq![joined_path(task_dir@, file_name@)]);
    sync_change(&mut effects, repo_root, files.as_slice(), message.as_str());
    assert(effects@ =~= new_task_view(task_dir@, t.id as int, file_name@, text@, repo_root@));
    Ok(effects)
}

/// The text, with spaces behind it where it has fewer than `width` characters.
pub open spec fn padded(text: Seq<char>, width: nat) -> Seq<char> {
    if text.len() >= width {
        text
    } else {
        text + Seq::new((width - text.len()) as nat, |i: int| ' ')
    }
}

fn pad(text: &str, width: usize) -> (out: String)
    ensures
        out@ == padded(text@, width as nat),
{
    let len = text.unicode_len();
    let mut out = text.to_owned();
    let mut n: usize = len;
    while n < width
        invariant
            len == text@.len(),
            len <= n,
            n <= width || n == len,
            out@ == text@ + Seq::new((n - len) as nat, |i: int| ' '),
        decreases width - n,
    {
        proof {
            reveal_strlit(" ");
        }
        out.append(" ");
        n = n + 1;
        assert(out@ =~= text@ + Seq::new((n - len) as nat, |i: int| ' '));
    }
    assert(out@ =~= padded(text@, width as nat));
    out
}

/// The title of a section as a banner: bold and black on bright blue, 61 characters wide.
pub open spec fn blue_banner(title: Seq<char>) -> Seq<char> {
    on_bright_blue_text(black_text(bold_text(padded(title, 61))))
}

/// The title of a section as a banner: bold and black on red, 61 characters wide.
pub open spec fn red_banner(title: Seq<char>) -> Seq<char> {
    on_red_text(black_text(bold_text(padded(title, 61))))
}

fn banner(title: &str, red: bool) -> (out: String)
    ensures
        out@ == if red {
            red_banner(title@)
        } else {
            blue_banner(title@)
        },
{
    let inner = black(bold(pad(title, 61).as_str()).as_str());
    if red {
        on_red(inner.as_str())
    } else {
        on_bright_blue(inner.as_str())
    }
}

/// A line that is printed and must not fail.
pub open spec fn print_view(text: Seq<char>) -> EffectView {
    EffectView { effect_kind: EffectKindView::PrintToStdOut(text), forgiving: false }
}

/// A rendering goes to the standard output, the message of a failed one to the standard
/// error; neither is forgiving.
pub open spec fn println_view(x: Result<String, Error>) -> EffectView {
    match x {
        Ok(text) => print_view(text@),
        Err(error) => EffectView {
            effect_kind: EffectKindView::PrintToStdErr(error.text()),
            forgiving: false,
        },
    }
}

fn println_ok_or_eprintln(x: Result<String, Error>) -> (effect: crate::effects::Effect)
    ensures
        effect@ == println_view(x),
{
    match x {
        Ok(f) => crate::effects::Effect { effect_kind: EffectKind::PrintToStdOut(f), forgiving: false },
        Err(e) => crate::effects::Effect {
            effect_kind: EffectKind::PrintToStdErr(e.to_string()),
            forgiving: false,
        },
    }
}

/// What listing one task gives: its rendering behind an empty line, or the failure of the
/// rendering as it is.
pub open spec fn try_print_outcome<G: Fn(&Date) -> Result<String, String>>(
    task: TaskView,
    current_date: Date,
    format_date: G,
    out: Result<String, Error>,
) -> bool {
    exists|inner: Result<String, Error>|
        #![trigger print_colorful_outcome(task, current_date, format_date, inner)]
        {
            &&& print_colorful_outcome(task, current_date, format_date, inner)
            &&& match inner {
                Ok(text) => out is Ok && out->Ok_0@ == "\n"@ + text@,
                Err(error) => out == Err::<String, Error>(error),
            }
        }
}

fn try_print_colorful_with_current_duration<G: Fn(&Date) -> Result<String, String>>(
    x: &Task,
    current_date: Date,
    format_date: &G,
) -> (out: Result<String, Error>)
    requires
        forall|date: &Date| call_requires(*format_date, (date,)),
    ensures
        try_print_outcome(x@, current_date, *format_date, out),
{
    let inner = x.print_colorful_with_current_duration(current_date, format_date);
    match inner {
        Ok(text) => {
            let out = "\n".to_owned().concat(text.as_str());
            assert(print_colorful_outcome(x@, current_date, *format_date, inner));
            Ok(out)
        },
        Err(error) => {
            assert(print_colorful_outcome(x@, current_date, *format_date, inner));
            Err(error)
        },
    }
}

/// Each task of the list has its rendering, in the order of the list.
pub open spec fn rendered_each<G: Fn(&Date) -> Result<String, String>>(
    tasks: Seq<TaskDescriptionView>,
    current_date: Date,
    format_date: G,
    renderings: Seq<Result<String, Error>>,
) -> bool {
    &&& renderings.len() == tasks.len()
    &&& forall|i: int|
        0 <= i < tasks.len() ==> try_print_outcome(
            tasks[i].task,
            current_date,
            format_date,
            #[trigger] renderings[i],
        )
}

/// One wrapper per rendering, in order.
pub open spec fn printed(renderings: Seq<Result<String, Error>>) -> Seq<EffectView> {
    Seq::new(renderings.len(), |i: int| println_view(renderings[i]))
}

fn print_each<G: Fn(&Date) -> Result<String, String>>(
    effects: &mut EffectMachine,
    tasks: &Vec<TaskDescription>,
    current_date: Date,
    format_date: &G,
) -> (renderings: Ghost<Seq<Result<String, Error>>>)
    requires
        forall|date: &Date| call_requires(*format_date, (date,)),
    ensures
        rendered_each(tasks.deep_view(), current_date, *format_date, renderings@),
        final(effects)@ == old(effects)@ + printed(renderings@),
{
    let ghost mut renderings: Seq<Result<String, Error>> = Seq::empty();
    let mut i: usize = 0;
    assert(effects@ =~= old(effects)@ + printed(renderings));
    while i < tasks.len()
        invariant
            i <= tasks.len(),
            forall|date: &Date| call_requires(*format_date, (date,)),
            renderings.len() == i,
            forall|k: int|
                0 <= k < i ==> try_print_outcome(
                    tasks.deep_view()[k].task,
                    current_date,
                    *format_date,
                    #[trigger] renderings[k],
                ),
            effects@ == old(effects)@ + printed(renderings),
        decreases tasks.len() - i,
    {
        let rendering = try_print_colorful_with_current_duration(
            &tasks[i].task,
            current_date,
            format_date,
        );
        let ghost before = effects@;
        let ghost earlier = renderings;
        let ef = println_ok_or_eprintln(rendering);
        effects.add(ef.effect_kind, ef.forgiving);
        proof {
            renderings = renderings.push(rendering);
            assert(effects@ =~= old(effects)@ + printed(renderings));
        }
        i = i + 1;
    }
    Ghost(renderings)
}

/// The task is in the project, or no project is asked for.
pub open spec fn in_project(task: TaskView, of_project: Option<Seq<char>>) -> bool {
    match of_project {
        Some(project) => task.projects.contains(project),
        None => true,
    }
}

/// The task is to do now: its current state is `ToDo`.
pub open spec fn is_to_do(task: TaskView) -> bool {
    task.state_log.len() > 0 && task.state_log.last() is ToDo
}

/// The three selections of the day's listing.
#[derive(Clone, Copy, Debug, PartialEq, Eq, Structural)]
pub enum Selection {
    /// To do, and starting on the day.
    Starting,
    /// To do, ending on the day, and in the project.
    Deadline,
    /// Ending before the day, and in the project, whatever the state.
    Overdue,
}

/// The task belongs to the selection for the day `current_date`.
pub open spec fn selected(
    task: TaskView,
    selection: Selection,
    current_date: Date,
    of_project: Option<Seq<char>>,
) -> bool {
    match selection {
        Selection::Starting => is_to_do(task) && task.start == Some(current_date),
        Selection::Deadline => is_to_do(task) && task.end == Some(current_date) && in_project(
            task,
            of_project,
        ),
        Selection::Overdue => task.end is Some && current_date.julian_day
            > task.end->Some_0.julian_day && in_project(task, of_project),
    }
}

/// The tasks of the list that belong to the selection, in the order of the list.
pub open spec fn selection_of(
    tasks: Seq<TaskDescriptionView>,
    selection: Selection,
    current_date: Date,
    of_project: Option<Seq<char>>,
) -> Seq<TaskDescriptionView> {
    tasks.filter(|t: TaskDescriptionView| selected(t.task, selection, current_date, of_project))
}

fn is_in_project(task: &Task, of_project: &Option<String>) -> (inside: bool)
    ensures
        inside == in_project(task@, of_project.deep_view()),
{
    match of_project {
        None => true,
        Some(project) => {
            let mut i: usize = 0;
            while i < task.projects.len()
                invariant
                    i <= task.projects.len(),
                    of_project.deep_view() == Some(project@),
                    forall|k: int| 0 <= k < i ==> task@.projects[k] != project@,
                decreases task.projects.len() - i,
            {
                if same_text(task.projects[i].as_str(), project.as_str()) {
                    assert(task@.projects[i as int] == project@);
                    assert(task@.projects.contains(project@));
                    return true;
                }
                i = i + 1;
            }
            false
        },
    }
}

fn is_selected(
    task: &Task,
    selection: Selection,
    current_date: Date,
    of_project: &Option<String>,
) -> (chosen: bool)
    ensures
        chosen == selected(task@, selection, current_date, of_project.deep_view()),
{
    let to_do = match task.current_state() {
        Some(State::ToDo(_)) => true,
        _ => false,
    };
    match selection {
        Selection::Starting => {
            match task.start {
                Some(bst) => to_do && bst.julian_day == current_date.julian_day,
                None => false,
            }
        },
        Selection::Deadline => {
            match task.end {
                Some(deadlined) => to_do && deadlined.julian_day == current_date.julian_day
                    && is_in_project(task, of_project),
                None => false,
            }
        },
        Selection::Overdue => {
            match task.end {
                Some(deadlined) => current_date.gt(&deadlined) && is_in_project(task, of_project),
                None => false,
            }
        },
    }
}

fn select(
    tasks: &Vec<TaskDescription>,
    selection: Selection,
    current_date: Date,
    of_project: &Option<String>,
) -> (chosen: Vec<TaskDescription>)
    ensures
        chosen.deep_view() == selection_of(
            tasks.deep_view(),
            selection,
            current_date,
            of_project.deep_view(),
        ),
{
    let mut chosen: Vec<TaskDescription> = Vec::new();
    let mut i: usize = 0;
    proof {
        reveal(Seq::filter);
        assert(tasks.deep_view().take(0) =~= Seq::<TaskDescriptionView>::empty());
        assert(chosen.deep_view() =~= Seq::<TaskDescriptionView>::empty());
    }
    while i < tasks.len()
        invariant
            i <= tasks.len(),
            chosen.deep_view() == selection_of(
                tasks.deep_view().take(i as int),
                selection,
                current_date,
                of_project.deep_view(),
            ),
        decreases tasks.len() - i,
    {
        let ghost before = chosen;
        if is_selected(&tasks[i].task, selection, current_date, of_project) {
            let description = tasks[i].clone();
            chosen.push(description);
            proof {
                lemma_deep_view_push(before, chosen, description);
            }
        }
        proof {
            reveal(Seq::filter);
            lemma_deep_view_take_next(*tasks, i as int);
            assert(tasks.deep_view().take(i + 1).drop_last() =~= tasks.deep_view().take(i as int));
        }
        i = i + 1;
    }
    assert(tasks.deep_view().take(tasks.len() as int) =~= tasks.deep_view());
    chosen
}

/// A section of a listing: nothing where it is not shown, else its header and then the
/// renderings.
pub open spec fn section(header: Seq<char>, shown: bool, renderings: Seq<Result<String, Error>>) -> Seq<
    EffectView,
> {
    if shown {
        seq![print_view(header)] + printed(renderings)
    } else {
        Seq::empty()
    }
}

fn add_section<G: Fn(&Date) -> Result<String, String>>(
    effects: &mut EffectMachine,
    header: String,
    shown: bool,
    tasks: &Vec<TaskDescription>,
    current_date: Date,
    format_date: &G,
) -> (renderings: Ghost<Seq<Result<String, Error>>>)
    requires
        forall|date: &Date| call_requires(*format_date, (date,)),
    ensures
        shown ==> rendered_each(tasks.deep_view(), current_date, *format_date, renderings@),
        final(effects)@ == old(effects)@ + section(header@, shown, renderings@),
{
    if shown {
        effects.add(EffectKind::PrintToStdOut(header), false);
        let renderings = print_each(effects, tasks, current_date, format_date);
        assert(effects@ =~= old(effects)@ + section(header@, shown, renderings@));
        renderings
    } else {
        assert(effects@ =~= old(effects)@ + section(header@, shown, Seq::empty()));
        Ghost(Seq::empty())
    }
}

/// The listing of the day: an empty line; the tasks that start on the day; the tasks that
/// end on it; and, under its own header where any task is overdue, the tasks that end on
/// the day once more. A section without tasks to show it for is left out.
pub open spec fn todays_view(
    starting: Seq<TaskDescriptionView>,
    deadline: Seq<TaskDescriptionView>,
    overdue: Seq<TaskDescriptionView>,
    starting_renderings: Seq<Result<String, Error>>,
    deadline_renderings: Seq<Result<String, Error>>,
    overdue_renderings: Seq<Result<String, Error>>,
) -> Seq<EffectView> {
    seq![print_view("\n"@)] + section(
        "\n"@ + blue_banner("Starting from today:"@),
        starting.len() > 0,
        starting_renderings,
    ) + section(
        "\n"@ + red_banner("Deadline at today:"@),
        deadline.len() > 0,
        deadline_renderings,
    ) + section("\n"@ + red_banner("overdue at today:"@), overdue.len() > 0, overdue_renderings)
}

/// What [`todays_task`] describes: the listing of the three selections of the day, each
/// task rendered with its dates formatted by `format_date`.
pub open spec fn todays_outcome<G: Fn(&Date) -> Result<String, String>>(
    tasks: Seq<TaskDescriptionView>,
    current_date: Date,
    of_project: Option<Seq<char>>,
    format_date: G,
    effects: Seq<EffectView>,
) -> bool {
    let starting = selection_of(tasks, Selection::Starting, current_date, of_project);
    let deadline = selection_of(tasks, Selection::Deadline, current_date, of_project);
    let overdue = selection_of(tasks, Selection::Overdue, current_date, of_project);
    exists|
        first: Seq<Result<String, Error>>,
        second: Seq<Result<String, Error>>,
        third: Seq<Result<String, Error>>,
    |
        #![trigger todays_view(starting, deadline, overdue, first, second, third)]
        {
            &&& starting.len() > 0 ==> rendered_each(starting, current_date, format_date, first)
            &&& deadline.len() > 0 ==> rendered_each(deadline, current_date, format_date, second)
            &&& overdue.len() > 0 ==> rendered_each(deadline, current_date, format_date, third)
            &&& effects == todays_view(starting, deadline, overdue, first, second, third)
        }
}

/// Describes the listing of the day `current_date`, with the dates of the tasks formatted
/// by `format_date`. Building the description cannot fail: a task that cannot be rendered
/// has its failure printed in its place.
pub fn todays_task<G: Fn(&Date) -> Result<String, String>>(
    all_tasks: TaskList,
    current_date: Date,
    of_project: &Option<String>,
    format_date: G,
) -> (effects: Result<EffectMachine, Error>)
    requires
        forall|date: &Date| call_requires(format_date, (date,)),
    ensures
        effects is Ok,
        todays_outcome(
            all_tasks@,
            current_date,
            of_project.deep_view(),
            format_date,
            effects->Ok_0@,
        ),
{
    let mut effects = EffectMachine::default();
    let todays_tasks_starting = select(&all_tasks.0, Selection::Starting, current_date, of_project);
    let todays_tasks_deadline = select(&all_tasks.0, Selection::Deadline, current_date, of_project);
    let todays_tasks_overdue = select(&all_tasks.0, Selection::Overdue, current_date, of_project);
    effects.add(EffectKind::PrintToStdOut("\n".to_owned()), false);
    let first = add_section(
        &mut effects,
        "\n".to_owned().concat(banner("Starting from today:", false).as_str()),
        todays_tasks_starting.len() > 0,
        &todays_tasks_starting,
        current_date,
        &format_date,
    );
    let second = add_section(
        &mut effects,
        "\n".to_owned().concat(banner("Deadline at today:", true).as_str()),
        todays_tasks_deadline.len() > 0,
        &todays_tasks_deadline,
        current_date,
        &format_date,
    );
    let third = add_section(
        &mut effects,
        "\n".to_owned().concat(banner("overdue at today:", true).as_str()),
        todays_tasks_overdue.len() > 0,
        &todays_tasks_deadline,
        current_date,
        &format_date,
    );
    assert(effects@ =~= todays_view(
        todays_tasks_starting.deep_view(),
        todays_tasks_deadline.deep_view(),
        todays_tasks_overdue.deep_view(),
        first@,
        second@,
        third@,
    ));
    assert(todays_outcome(
        all_tasks@,
        current_date,
        of_project.deep_view(),
        format_date,
        effects@,
    ));
    Ok(effects)
}

/// `pick` is the decision on one task: a task without a state is left out; any other is
/// taken where `task_state_finder` accepts its current state and it is in the project.
pub open spec fn picked_by<F: Fn(&State) -> bool>(
    task_state_finder: F,
    of_project: Option<Seq<char>>,
    task: TaskView,
    pick: bool,
) -> bool {
    if task.state_log.len() == 0 {
        !pick
    } else {
        exists|state: State, found: bool|
            #![trigger call_ensures(task_state_finder, (&state,), found)]
            {
                &&& state@ == task.state_log.last()
                &&& call_ensures(task_state_finder, (&state,), found)
                &&& pick == (found && in_project(task, of_project))
            }
    }
}

/// The tasks on which the decision was to take them, in the order of the list.
pub open spec fn picked(tasks: Seq<TaskDescriptionView>, picks: Seq<bool>) -> Seq<TaskDescriptionView>
    decreases tasks.len(),
{
    if tasks.len() == 0 || picks.len() != tasks.len() {
        Seq::empty()
    } else {
        let earlier = picked(tasks.drop_last(), picks.drop_last());
        if picks.last() {
            earlier.push(tasks.last())
        } else {
            earlier
        }
    }
}

/// What [`tasks_by_state`] describes: where any task was taken, a header and the tasks
/// taken, each rendered with its dates formatted by `format_date`; else nothing.
pub open spec fn by_state_outcome<F: Fn(&State) -> bool, G: Fn(&Date) -> Result<String, String>>(
    tasks: Seq<TaskDescriptionView>,
    task_state_finder: F,
    of_project: Option<Seq<char>>,
    current_date: Date,
    format_date: G,
    effects: Seq<EffectView>,
) -> bool {
    exists|picks: Seq<bool>, renderings: Seq<Result<String, Error>>|
        #![trigger picked(tasks, picks), printed(renderings)]
        {
            &&& picks.len() == tasks.len()
            &&& forall|i: int|
                0 <= i < tasks.len() ==> picked_by(
                    task_state_finder,
                    of_project,
                    tasks[i].task,
                    #[trigger] picks[i],
                )
            &&& picked(tasks, picks).len() > 0 ==> rendered_each(
                picked(tasks, picks),
                current_date,
                format_date,
                renderings,
            )
            &&& effects == section(
                blue_banner("tasks with that criteria:"@),
                picked(tasks, picks).len() > 0,
                renderings,
            )
        }
}

/// Describes the listing of the tasks whose current state `task_state_finder` accepts and
/// which are in the project, where one is asked for. Building the description cannot fail.
pub fn tasks_by_state<F: Fn(&State) -> bool, G: Fn(&Date) -> Result<String, String>>(
    all_tasks: TaskList,
    task_state_finder: F,
    of_project: &Option<String>,
    current_date: Date,
    format_date: G,
) -> (effects: Result<EffectMachine, Error>)
    requires
        forall|state: &State| call_requires(task_state_finder, (state,)),
        forall|date: &Date| call_requires(format_date, (date,)),
    ensures
        effects is Ok,
        by_state_outcome(
            all_tasks@,
            task_state_finder,
            of_project.deep_view(),
            current_date,
            format_date,
            effects->Ok_0@,
        ),
{
    let mut effects = EffectMachine::default();
    let mut chosen_tasks: Vec<TaskDescription> = Vec::new();
    let ghost mut picks: Seq<bool> = Seq::empty();
    let mut i: usize = 0;
    proof {
        assert(all_tasks@.take(0) =~= Seq::<TaskDescriptionView>::empty());
        assert(chosen_tasks.deep_view() =~= Seq::<TaskDescriptionView>::empty());
    }
    while i < all_tasks.0.len()
        invariant
            i <= all_tasks.0.len(),
            forall|state: &State| call_requires(task_state_finder, (state,)),
            picks.len() == i,
            forall|k: int|
                0 <= k < i ==> picked_by(
                    task_state_finder,
                    of_project.deep_view(),
                    all_tasks@[k].task,
                    #[trigger] picks[k],
                ),
            chosen_tasks.deep_view() == picked(all_tasks@.take(i as int), picks),
        decreases all_tasks.0.len() - i,
    {
        let task_description = &all_tasks.0[i];
        assert(task_description@ == all_tasks@[i as int]);
        let pick = match task_description.task.current_state() {
            None => false,
            Some(last) => {
                let found = task_state_finder(last);
                let pick = found && is_in_project(&task_description.task, of_project);
                assert(last@ == task_description@.task.state_log.last());
                assert(picked_by(
                    task_state_finder,
                    of_project.deep_view(),
                    task_description@.task,
                    pick,
                ));
                pick
            },
        };
        let ghost before = chosen_tasks;
        let ghost earlier = picks;
        if pick {
            let description = task_description.clone();
            chosen_tasks.push(description);
            proof {
                lemma_deep_view_push(before, chosen_tasks, description);
            }
        }
        proof {
            picks = picks.push(pick);
            lemma_deep_view_take_next(all_tasks.0, i as int);
            assert(all_tasks@.take(i + 1).drop_last() =~= all_tasks@.take(i as int));
            assert(picks.drop_last() =~= earlier);
        }
        i = i + 1;
    }
    assert(all_tasks@.take(all_tasks.0.len() as int) =~= all_tasks@);
    let renderings = add_section(
        &mut effects,
        banner("tasks with that criteria:", false),
        chosen_tasks.len() > 0,
        &chosen_tasks,
        current_date,
        &format_date,
    );
    proof {
        assert(effects@ =~= section(
            blue_banner("tasks with that criteria:"@),
            picked(all_tasks@, picks).len() > 0,
            renderings@,
        ));
        assert(picked(all_tasks@, picks) == picked(all_tasks@, picks) && printed(renderings@)
            == printed(renderings@));
    }
    Ok(effects)
}

} // verus!




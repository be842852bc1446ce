use prmait::effects::{Effect, EffectKind, EffectMachine};
use prmait::tasks::handlers::{tasks_by_state, todays_task};
use prmait::tasks::task::{Area, State, Task};
use prmait::tasks::tasklist::{TaskDescription, TaskList};
use prmait::tasks::Error;
use prmait::timeutils::{Date, Timestamp};

fn wrap(on: &str, text: &str, off: &str) -> String {
    format!("\u{1b}[{on}m{text}\u{1b}[{off}m")
}

fn bold(text: &str) -> String {
    wrap("1", text, "0")
}

fn italic(text: &str) -> String {
    wrap("3", text, "0")
}

fn fg(code: &str, text: &str) -> String {
    wrap(code, text, "39")
}

fn bg(code: &str, text: &str) -> String {
    wrap(code, text, "49")
}

fn at(unix_seconds: i64) -> Timestamp {
    Timestamp { unix_seconds, nanosecond: 0, offset_seconds: 0 }
}

fn day(julian_day: i32) -> Date {
    Date { julian_day }
}

fn task(id: i64, title: &str) -> Task {
    Task {
        id,
        time_created: at(id),
        state_log: vec![State::ToDo(at(id))],
        title: title.to_owned(),
        description: None,
        area: None,
        people: vec![],
        projects: vec![],
        start: None,
        end: None,
    }
}

fn format_date(date: &Date) -> Result<String, String> {
    if date.julian_day < 0 {
        Err(format!("no such day {}", date.julian_day))
    } else {
        Ok(format!("<{}>", date.julian_day))
    }
}

fn arrow() -> String {
    bold(&fg("90", " ⇰ "))
}

fn head(label: &str, id: i64) -> String {
    format!(
        "{}\t{} {}\n",
        bg("45", &fg("30", label)),
        fg("90", "⍙"),
        bold(&fg("90", &id.to_string()))
    )
}

#[test]
fn a_plain_task_in_colour() {
    let t = task(17, "write");
    let expected = format!("{}⍜ {}\n\n{}", head("☐ TODO", 17), bold("write"), arrow());
    assert_eq!(t.colorful(day(100), None, None), Ok(expected.clone()));
    assert_eq!(t.print_colorful_with_current_duration(day(100), &format_date), Ok(expected));
}

#[test]
fn a_full_task_in_colour() {
    let t = Task {
        state_log: vec![State::ToDo(at(1)), State::Abandoned(at(2), Some("late".to_owned()))],
        description: Some("all of it".to_owned()),
        area: Some(Area::Personal),
        people: vec!["ann".to_owned(), "bob".to_owned()],
        projects: vec!["book".to_owned()],
        start: Some(day(90)),
        end: Some(day(110)),
        ..task(-5, "write")
    };
    let expected = [
        head("☓ ABND", -5),
        format!("⍜ {}\n", bold("write")),
        format!("{} {}\n", fg("90", "⍘"), fg("90", "all of it")),
        format!("{}{} ", fg("32", "#"), fg("32", "personal")),
        format!("{}{} ", fg("33", "?"), fg("33", "book")),
        format!("{}{} ", bold(&fg("34", "@")), fg("34", "ann")),
        format!("{}{} ", bold(&fg("34", "@")), fg("34", "bob")),
        "\n".to_owned(),
        fg("90", &italic("<90>")),
        arrow(),
        fg("90", &italic("<110>")),
        bold(&fg("90", " ◕ 10d240h")),
    ]
    .concat();
    assert_eq!(t.print_colorful_with_current_duration(day(100), &format_date), Ok(expected));
    let overdue = t
        .colorful(day(120), Some(Ok("s".to_owned())), Some(Ok("e".to_owned())))
        .unwrap();
    assert!(overdue.ends_with(&format!(
        "{}{}{}{}",
        fg("90", &italic("s")),
        arrow(),
        fg("90", &italic("e")),
        bold(&fg("90", " ◕ -10d-240h"))
    )));
}

#[test]
fn rendering_failures() {
    let stateless = Task { state_log: vec![], start: Some(day(-1)), ..task(1, "t") };
    assert_eq!(
        stateless.print_colorful_with_current_duration(day(0), &format_date),
        Err(Error::EveryTaskShouldHaveAtLeastOneState)
    );
    let bad_start = Task { start: Some(day(-1)), end: Some(day(-2)), ..task(1, "t") };
    assert_eq!(
        bad_start.print_colorful_with_current_duration(day(0), &format_date),
        Err(Error::CouldNotFormatToFileName("no such day -1".to_owned()))
    );
    let bad_end = Task { start: Some(day(1)), end: Some(day(-2)), ..task(1, "t") };
    assert_eq!(
        bad_end.print_colorful_with_current_duration(day(0), &format_date),
        Err(Error::CouldNotFormatToFileName("no such day -2".to_owned()))
    );
    assert_eq!(
        task(1, "t").colorful(day(0), Some(Err("a".to_owned())), Some(Err("b".to_owned()))),
        Err(Error::CouldNotFormatToFileName("a".to_owned()))
    );
}

fn described(task: Task) -> TaskDescription {
    TaskDescription { file_name: format!("{}.json", task.id), task }
}

fn printed(machine: &EffectMachine) -> Vec<(bool, String)> {
    machine
        .0
        .iter()
        .map(|effect| match effect {
            Effect { effect_kind: EffectKind::PrintToStdOut(text), forgiving: false } => {
                (true, text.clone())
            }
            Effect { effect_kind: EffectKind::PrintToStdErr(text), forgiving: false } => {
                (false, text.clone())
            }
            other => panic!("unexpected: {other:?}"),
        })
        .collect()
}

fn banner(title: &str, background: &str) -> String {
    bg(background, &fg("30", &bold(&format!("{title:61}"))))
}

fn shown(task: &Task, today: Date) -> (bool, String) {
    (true, format!("\n{}", task.print_colorful_with_current_duration(today, &format_date).unwrap()))
}

#[test]
fn the_listing_of_a_day() {
    let today = day(100);
    let starting = Task { start: Some(today), ..task(1, "starts") };
    let due = Task { end: Some(today), projects: vec!["p".to_owned()], ..task(2, "due") };
    let late = Task { end: Some(day(99)), ..task(3, "late") };
    let done_today =
        Task { start: Some(today), end: Some(today), ..task(4, "done") }.mark(State::Done(at(9)));
    let list = TaskList(vec![
        described(starting.clone()),
        described(due.clone()),
        described(late),
        described(done_today),
    ]);
    let machine = todays_task(list, today, &None, format_date).unwrap();
    assert_eq!(
        printed(&machine),
        vec![
            (true, "\n".to_owned()),
            (true, format!("\n{}", banner("Starting from today:", "104"))),
            shown(&starting, today),
            (true, format!("\n{}", banner("Deadline at today:", "41"))),
            shown(&due, today),
            (true, format!("\n{}", banner("overdue at today:", "41"))),
            shown(&due, today),
        ]
    );
}

#[test]
fn the_listing_of_a_day_within_a_project() {
    let today = day(100);
    let starting = Task { start: Some(today), ..task(1, "starts") };
    let due_inside = Task { end: Some(today), projects: vec!["p".to_owned()], ..task(2, "in") };
    let due_outside = Task { end: Some(today), projects: vec!["q".to_owned()], ..task(3, "out") };
    let late_outside = Task { end: Some(day(1)), ..task(4, "late") };
    let list = TaskList(vec![
        described(starting.clone()),
        described(due_inside.clone()),
        described(due_outside),
        described(late_outside),
    ]);
    let machine = todays_task(list, today, &Some("p".to_owned()), format_date).unwrap();
    assert_eq!(
        printed(&machine),
        vec![
            (true, "\n".to_owned()),
            (true, format!("\n{}", banner("Starting from today:", "104"))),
            shown(&starting, today),
            (true, format!("\n{}", banner("Deadline at today:", "41"))),
            shown(&due_inside, today),
        ]
    );
}

#[test]
fn an_empty_day() {
    let machine = todays_task(TaskList(vec![]), day(1), &None, format_date).unwrap();
    assert_eq!(printed(&machine), vec![(true, "\n".to_owned())]);
    let idle = TaskList(vec![described(task(1, "t"))]);
    let machine = todays_task(idle, day(1), &None, format_date).unwrap();
    assert_eq!(printed(&machine), vec![(true, "\n".to_owned())]);
}

#[test]
fn a_task_that_cannot_be_rendered_is_reported_in_its_place() {
    let today = day(100);
    let broken = Task { start: Some(today), end: Some(day(-7)), ..task(1, "broken") };
    let fine = Task { start: Some(today), ..task(2, "fine") };
    let list = TaskList(vec![described(broken), described(fine.clone())]);
    let machine = todays_task(list, today, &None, format_date).unwrap();
    assert_eq!(
        printed(&machine),
        vec![
            (true, "\n".to_owned()),
            (true, format!("\n{}", banner("Starting from today:", "104"))),
            (false, "could not format to file name:no such day -7".to_owned()),
            shown(&fine, today),
            // The broken task ended before today, so the last header is shown; no task
            // ends today, so nothing stands under it.
            (true, format!("\n{}", banner("overdue at today:", "41"))),
        ]
    );
}

#[test]
fn listing_by_state() {
    let today = day(100);
    let open = task(1, "open");
    let closed = task(2, "closed").mark(State::Done(at(5)));
    let other = Task { projects: vec!["p".to_owned()], ..task(3, "other") };
    let stateless = Task { state_log: vec![], ..task(4, "none") };
    let list = || {
        TaskList(vec![
            described(open.clone()),
            described(closed.clone()),
            described(other.clone()),
            described(stateless.clone()),
        ])
    };
    let to_do = |state: &State| matches!(state, State::ToDo(_));
    let machine = tasks_by_state(list(), to_do, &None, today, format_date).unwrap();
    assert_eq!(
        printed(&machine),
        vec![
            (true, banner("tasks with that criteria:", "104")),
            shown(&open, today),
            shown(&other, today),
        ]
    );
    let machine = tasks_by_state(list(), to_do, &Some("p".to_owned()), today, format_date).unwrap();
    assert_eq!(
        printed(&machine),
        vec![(true, banner("tasks with that criteria:", "104")), shown(&other, today)]
    );
    let done = |state: &State| matches!(state, State::Done(_));
    let machine = tasks_by_state(list(), done, &None, today, format_date).unwrap();
    assert_eq!(
        printed(&machine),
        vec![(true, banner("tasks with that criteria:", "104")), shown(&closed, today)]
    );
    let none = |state: &State| matches!(state, State::Backlog(_));
    let machine = tasks_by_state(list(), none, &None, today, format_date).unwrap();
    assert_eq!(printed(&machine), vec![]);
    let all = |_: &State| true;
    let machine = tasks_by_state(list(), all, &None, today, format_date).unwrap();
    assert_eq!(machine.0.len(), 4);
}

#[test]
fn banners_keep_long_titles_whole() {
    assert_eq!(banner("overdue at today:", "41").chars().filter(|c| *c == ' ').count(), 2 + 44);
}

use prmait::tasks::bulk::{action_from_line, form_file_action, multiple_lines, Action};
use prmait::tasks::task::{State, Task};
use prmait::tasks::Error;
use prmait::timeutils::Timestamp;

fn failure(line: &str) -> Error {
    Error::ParsingLineFailed(Box::new(format!(
        "expected a number, a tab, an action, a tab and a title: {line}"
    )))
}

#[test]
fn bulk_parser_oneline_happy() {
    assert_eq!(action_from_line("1\tignr\ttask description, done "), Ok((1, Action::Ignore)));
    assert_eq!(action_from_line("0\tdone\ttask description"), Ok((0, Action::Done)));
    assert_eq!(action_from_line("2\ttodo\ttask description"), Ok((2, Action::ToDo)));
    assert_eq!(action_from_line("10\taban\ttask description"), Ok((10, Action::Abandon(None))));
    assert_eq!(
        action_from_line("10\taban\ttask description\tsome reason"),
        Ok((10, Action::Abandon(Some("some reason".to_owned()))))
    );
    assert_eq!(action_from_line("01\tback\ttask description"), Ok((1, Action::Backlog)));
}

#[test]
fn bulk_parser_oneline_not_happy() {
    for line in [
        "\tignr\ttask description, done\t ",
        "done\ttask description\t",
        "2\ttodo\ttask description\t0",
        "10 10\taban\ttask description",
        "1 0\taban\ttask description\tsome reason",
        "01 back ttask description",
    ] {
        assert_eq!(action_from_line(line), Err(failure(line)));
    }
}

#[test]
fn bulk_parser_multiline() {
    assert_eq!(
        multiple_lines(
            "1\tignr\ttask description, done \n0\tdone\ttask description\n10\taban\ttask description\tsome reason\n"
        ),
        Ok(vec![
            (1, Action::Ignore),
            (0, Action::Done),
            (10, Action::Abandon(Some("some reason".to_owned())))
        ])
    );
    assert_eq!(multiple_lines("0\tdone\ttask description\n"), Ok(vec![(0, Action::Done)]));
}

#[test]
fn bulk_parser_lines_and_their_endings() {
    assert_eq!(multiple_lines(""), Ok(vec![]));
    assert_eq!(multiple_lines("3\tdone\tt"), Ok(vec![(3, Action::Done)]));
    assert_eq!(
        multiple_lines("3\tdone\tt\r\n4\ttodo\tu\r\n"),
        Ok(vec![(3, Action::Done), (4, Action::ToDo)])
    );
    // A lone carriage return at the end of the text stays in the last line.
    assert_eq!(multiple_lines("3\tignr\tt\r"), Ok(vec![(3, Action::Ignore)]));
    assert_eq!(multiple_lines("3\tdone\tt\r"), Err(failure("3\tdone\tt\r")));
    // An empty line is a line, and it is not of the form.
    assert_eq!(multiple_lines("3\tdone\tt\n\n4\tdone\tu"), Err(failure("")));
    assert_eq!(multiple_lines("\n"), Err(failure("")));
}

#[test]
fn bulk_parser_stops_at_the_first_bad_line() {
    assert_eq!(multiple_lines("1\tdone\ta\nbad\nworse\n"), Err(failure("bad")));
    assert_eq!(multiple_lines("x\n1\tdone\ta\n"), Err(failure("x")));
}

#[test]
fn bulk_parser_numbers() {
    assert_eq!(
        action_from_line("18446744073709551615\tdone\tt"),
        Ok((u64::MAX, Action::Done))
    );
    assert_eq!(
        action_from_line("18446744073709551616\tdone\tt"),
        Err(failure("18446744073709551616\tdone\tt"))
    );
    assert_eq!(
        action_from_line("00000000000000000000000007\tdone\tt"),
        Ok((7, Action::Done))
    );
    assert_eq!(action_from_line("-1\tdone\tt"), Err(failure("-1\tdone\tt")));
    assert_eq!(action_from_line("1"), Err(failure("1")));
    assert_eq!(action_from_line("1\t"), Err(failure("1\t")));
    assert_eq!(action_from_line("1\tdone"), Err(failure("1\tdone")));
    assert_eq!(action_from_line(""), Err(failure("")));
}

#[test]
fn bulk_parser_titles_and_reasons() {
    assert_eq!(action_from_line("1\tdone\t"), Ok((1, Action::Done)));
    assert_eq!(action_from_line("1\tdone\ta\tb\tc"), Ok((1, Action::Done)));
    assert_eq!(action_from_line("1\tdone\ta\nb"), Err(failure("1\tdone\ta\nb")));
    assert_eq!(action_from_line("1\tdone\ta\rb"), Err(failure("1\tdone\ta\rb")));
    assert_eq!(action_from_line("1\taban\t"), Ok((1, Action::Abandon(None))));
    assert_eq!(action_from_line("1\taban\tt\t"), Ok((1, Action::Abandon(Some(String::new())))));
    assert_eq!(
        action_from_line("1\taban\tt\tr\ts"),
        Ok((1, Action::Abandon(Some("r\ts".to_owned()))))
    );
    // The title of an abandoned task may hold a line break where a reason follows it.
    assert_eq!(
        action_from_line("1\taban\ta\nb\twhy"),
        Ok((1, Action::Abandon(Some("why".to_owned()))))
    );
    assert_eq!(action_from_line("1\taban\tt\tr\ns"), Err(failure("1\taban\tt\tr\ns")));
    assert_eq!(action_from_line("1\taban\ta\nb"), Err(failure("1\taban\ta\nb")));
    assert_eq!(action_from_line("1\tignr\ta\nb"), Ok((1, Action::Ignore)));
    assert_eq!(action_from_line("1\tback\t"), Ok((1, Action::Backlog)));
    assert_eq!(action_from_line("1\ttodo\tté ☑"), Ok((1, Action::ToDo)));
    assert_eq!(action_from_line("1\tDone\tt"), Err(failure("1\tDone\tt")));
    assert_eq!(action_from_line("1\tdone t"), Err(failure("1\tdone t")));
    assert_eq!(action_from_line("1\tnope\tt"), Err(failure("1\tnope\tt")));
}

fn task(title: &str) -> Task {
    let now = Timestamp { unix_seconds: 1_700_000_000, nanosecond: 5, offset_seconds: 0 };
    Task {
        id: now.unix_seconds,
        time_created: now,
        state_log: vec![State::ToDo(now)],
        title: title.to_owned(),
        description: None,
        area: None,
        people: vec![],
        projects: vec![],
        start: None,
        end: None,
    }
}

#[test]
fn test_the_tasks() {
    let tasks = vec![task("first one"), task("second task"), task("third task")];
    assert_eq!(
        form_file_action(&tasks),
        "000\tignr\tfirst one\n001\tignr\tsecond task\n002\tignr\tthird task\n"
    );
}

#[test]
fn form_file_pads_the_position_to_three_digits() {
    assert_eq!(form_file_action(&[]), "");
    let many: Vec<Task> = (0..1001).map(|_| task("t")).collect();
    let text = form_file_action(&many);
    let lines: Vec<&str> = text.lines().collect();
    assert_eq!(lines.len(), 1001);
    assert_eq!(lines[9], "009\tignr\tt");
    assert_eq!(lines[10], "010\tignr\tt");
    assert_eq!(lines[99], "099\tignr\tt");
    assert_eq!(lines[100], "100\tignr\tt");
    assert_eq!(lines[1000], "1000\tignr\tt");
}

#[test]
fn what_is_offered_can_be_read_back() {
    let tasks = vec![task("first one"), task("second task")];
    assert_eq!(
        multiple_lines(&form_file_action(&tasks)),
        Ok(vec![(0, Action::Ignore), (1, Action::Ignore)])
    );
}

use vstd::prelude::*;

use super::error::Error;
use crate::style::{
    black, black_text, blue, blue_text, bold, bold_text, bright_black, bright_black_text, green,
    green_text, italic, italic_text, on_magenta, on_magenta_text, yellow, yellow_text,
};
use crate::text::{
    clone_text, clone_texts, decimal, decimal_text, lemma_deep_view_push,
    lemma_deep_view_take_next, push_text, same_text,
};
use crate::timeutils::{Date, Timestamp};

verus! {

/// One thing to do, with the history of its states.
#[derive(Debug, PartialEq, Eq, Hash, PartialOrd, Ord)]
pub struct Task {
    /// The creation time in seconds, which also serves as a sortable key.
    pub id: i64,
    pub time_created: Timestamp,
    /// The history of states, oldest first; the current state is the last.
    pub state_log: Vec<State>,
    pub title: String,
    pub description: Option<String>,
    pub area: Option<Area>,
    pub people: Vec<String>,
    pub projects: Vec<String>,
    pub start: Option<Date>,
    pub end: Option<Date>,
}

/// A state of a task with the time at which it was entered.
#[derive(Debug, PartialEq, Eq, Hash, PartialOrd, Ord)]
pub enum State {
    Backlog(Timestamp),
    /// The time, and the reason if one was given.
    Abandoned(Timestamp, Option<String>),
    Done(Timestamp),
    ToDo(Timestamp),
}

#[derive(Clone, Copy, Debug, PartialEq, Eq, Hash, PartialOrd, Ord, Structural)]
pub enum Area {
    Work,
    Home,
    Personal,
}

#[derive(Clone, Copy, Debug, PartialEq, Eq, Hash, Structural)]
pub enum AreaParsingError {
    AreaIsNotAMatch,
}

/// The mathematical content of a [`State`].
pub enum StateView {
    Backlog(Timestamp),
    Abandoned(Timestamp, Option<Seq<char>>),
    Done(Timestamp),
    ToDo(Timestamp),
}

/// The mathematical content of a [`Task`].
pub struct TaskView {
    pub id: int,
    pub time_created: Timestamp,
    pub state_log: Seq<StateView>,
    pub title: Seq<char>,
    pub description: Option<Seq<char>>,
    pub area: Option<Area>,
    pub people: Seq<Seq<char>>,
    pub projects: Seq<Seq<char>>,
    pub start: Option<Date>,
    pub end: Option<Date>,
}

impl StateView {
    /// The label under which a state is shown.
    pub open spec fn label(self) -> Seq<char> {
        match self {
            StateView::Backlog(_) => "⚏ BKLG"@,
            StateView::Abandoned(_, _) => "☓ ABND"@,
            StateView::Done(_) => "☑ DONE"@,
            StateView::ToDo(_) => "☐ TODO"@,
        }
    }
}

impl State {
    /// The label under which the state is shown.
    pub fn to_string(&self) -> (label: String)
        ensures
            label@ == self@.label(),
    {
        match self {
            State::Backlog(_) => "⚏ BKLG".to_owned(),
            State::Abandoned(_, _) => "☓ ABND".to_owned(),
            State::Done(_) => "☑ DONE".to_owned(),
            State::ToDo(_) => "☐ TODO".to_owned(),
        }
    }
}

impl Area {
    /// The name of an area.
    pub open spec fn name(self) -> Seq<char> {
        match self {
            Area::Work => "work"@,
            Area::Home => "home"@,
            Area::Personal => "personal"@,
        }
    }

    /// The area that a text names: the name itself or one of its first one, two, three ...
    /// letters, in lower case.
    pub open spec fn named_by(s: Seq<char>) -> Option<Area> {
        if s == "work"@ || s == "w"@ || s == "wo"@ || s == "wor"@ {
            Some(Area::Work)
        } else if s == "home"@ || s == "h"@ || s == "ho"@ || s == "hom"@ {
            Some(Area::Home)
        } else if s == "personal"@ || s == "p"@ || s == "pe"@ || s == "per"@ || s == "pers"@ || s
            == "perso"@ || s == "person"@ || s == "persona"@ {
            Some(Area::Personal)
        } else {
            None
        }
    }

    /// The name of the area.
    pub fn to_string(&self) -> (name: String)
        ensures
            name@ == self.name(),
    {
        match self {
            Area::Work => "work".to_owned(),
            Area::Home => "home".to_owned(),
            Area::Personal => "personal".to_owned(),
        }
    }

    /// Reads an area from its name or from a prefix of its name.
    pub fn parse(s: &str) -> (area: Result<Area, AreaParsingError>)
        ensures
            area == match Area::named_by(s@) {
                Some(a) => Ok::<Area, AreaParsingError>(a),
                None => Err::<Area, AreaParsingError>(AreaParsingError::AreaIsNotAMatch),
            },
    {
        if same_text(s, "work") || same_text(s, "w") || same_text(s, "wo") || same_text(s, "wor") {
            Ok(Area::Work)
        } else if same_text(s, "home") || same_text(s, "h") || same_text(s, "ho") || same_text(
            s,
            "hom",
        ) {
            Ok(Area::Home)
        } else if same_text(s, "personal") || same_text(s, "p") || same_text(s, "pe") || same_text(
            s,
            "per",
        ) || same_text(s, "pers") || same_text(s, "perso") || same_text(s, "person") || same_text(
            s,
            "persona",
        ) {
            Ok(Area::Personal)
        } else {
            Err(AreaParsingError::AreaIsNotAMatch)
        }
    }
}

impl std::str::FromStr for Area {
    type Err = AreaParsingError;

    fn from_str(s: &str) -> (area: Result<Self, Self::Err>)
        ensures
            area == match Area::named_by(s@) {
                Some(a) => Ok::<Area, AreaParsingError>(a),
                None => Err::<Area, AreaParsingError>(AreaParsingError::AreaIsNotAMatch),
            },
    {
        Area::parse(s)
    }
}

impl AreaParsingError {
    /// What went wrong, in words for the operator.
    pub fn to_string(&self) -> (text: String)
        ensures
            text@ == "area given is not matching any particular ones"@,
    {
        "area given is not matching any particular ones".to_owned()
    }
}

impl View for State {
    type V = StateView;

    open spec fn view(&self) -> StateView {
        match self {
            State::Backlog(at) => StateView::Backlog(*at),
            State::Abandoned(at, reason) => StateView::Abandoned(*at, reason.deep_view()),
            State::Done(at) => StateView::Done(*at),
            State::ToDo(at) => StateView::ToDo(*at),
        }
    }
}

impl DeepView for State {
    type V = StateView;

    open spec fn deep_view(&self) -> StateView {
        self@
    }
}

impl View for Task {
    type V = TaskView;

    open spec fn view(&self) -> TaskView {
        TaskView {
            id: self.id as int,
            time_created: self.time_created,
            state_log: self.state_log.deep_view(),
            title: self.title@,
            description: self.description.deep_view(),
            area: self.area,
            people: self.people.deep_view(),
            projects: self.projects.deep_view(),
            start: self.start,
            end: self.end,
        }
    }
}

impl DeepView for Task {
    type V = TaskView;

    open spec fn deep_view(&self) -> TaskView {
        self@
    }
}

impl Clone for State {
    fn clone(&self) -> (copy: Self)
        ensures
            copy@ == self@,
    {
        match self {
            State::Backlog(at) => State::Backlog(*at),
            State::Abandoned(at, reason) => State::Abandoned(*at, clone_text(reason)),
            State::Done(at) => State::Done(*at),
            State::ToDo(at) => State::ToDo(*at),
        }
    }
}

impl Clone for Task {
    fn clone(&self) -> (copy: Self)
        ensures
            copy@ == self@,
    {
        let mut state_log: Vec<State> = Vec::new();
        let mut i: usize = 0;
        while i < self.state_log.len()
            invariant
                i <= self.state_log.len(),
                state_log.deep_view() == self.state_log.deep_view().take(i as int),
            decreases self.state_log.len() - i,
        {
            let ghost before = state_log;
            let state = self.state_log[i].clone();
            state_log.push(state);
            proof {
                lemma_deep_view_push(before, state_log, state);
                lemma_deep_view_take_next(self.state_log, i as int);
            }
            i = i + 1;
        }
        assert(self.state_log.deep_view().take(self.state_log.len() as int)
            =~= self.state_log.deep_view());
        Task {
            id: self.id,
            time_created: self.time_created,
            state_log,
            title: self.title.clone(),
            description: clone_text(&self.description),
            area: self.area,
            people: clone_texts(&self.people),
            projects: clone_texts(&self.projects),
            start: self.start,
            end: self.end,
        }
    }
}

impl Task {
    /// A task made at the instant `at`: its id is the second of the instant, and its
    /// history begins with `ToDo` at that instant. Where the task is made inside a project's
    /// directory, that project follows those that were named.
    pub fn create(
        at: Timestamp,
        title: String,
        description: Option<String>,
        area: Option<Area>,
        people: Option<Vec<String>>,
        projects: Option<Vec<String>>,
        current_project: Option<String>,
        start: Option<Date>,
        end: Option<Date>,
    ) -> (task: Task)
        ensures
            task@ == (TaskView {
                id: at.unix_seconds as int,
                time_created: at,
                state_log: seq![StateView::ToDo(at)],
                title: title@,
                description: description.deep_view(),
                area,
                people: match people {
                    Some(names) => names.deep_view(),
                    None => Seq::empty(),
                },
                projects: match projects {
                    Some(names) => names.deep_view(),
                    None => Seq::empty(),
                } + match current_project {
                    Some(name) => seq![name@],
                    None => Seq::empty(),
                },
                start,
                end,
            }),
    {
        let mut state_log: Vec<State> = Vec::new();
        state_log.push(State::ToDo(at));
        assert(state_log.deep_view() =~= seq![StateView::ToDo(at)]);
        let people = match people {
            Some(names) => names,
            None => {
                let names: Vec<String> = Vec::new();
                assert(names.deep_view() =~= Seq::<Seq<char>>::empty());
                names
            },
        };
        let mut projects = match projects {
            Some(names) => names,
            None => {
                let names: Vec<String> = Vec::new();
                assert(names.deep_view() =~= Seq::<Seq<char>>::empty());
                names
            },
        };
        let ghost named = projects.deep_view();
        match current_project {
            Some(name) => {
                push_text(&mut projects, name);
                assert(projects.deep_view() =~= named + seq![name@]);
            },
            None => {
                assert(projects.deep_view() =~= named + Seq::<Seq<char>>::empty());
            },
        }
        Task {
            id: at.unix_seconds,
            time_created: at,
            state_log,
            title,
            description,
            area,
            people,
            projects,
            start,
            end,
        }
    }

    /// The current state: the last entry of the history, if there is any.
    #[must_use]
    pub fn current_state(&self) -> (state: Option<&State>)
        ensures
            self.state_log@.len() == 0 ==> state is None,
            self.state_log@.len() > 0 ==> state == Some(&self.state_log@.last()),
    {
        if self.state_log.len() == 0 {
            None
        } else {
            Some(&self.state_log[self.state_log.len() - 1])
        }
    }

    /// Appends `new_state` to the history. Any state may follow any other, the current one
    /// included; the history itself is never edited.
    pub fn mark(self, new_state: State) -> (marked: Task)
        ensures
            marked@ == (TaskView { state_log: self@.state_log.push(new_state@), ..self@ }),
            marked@.state_log.len() == self@.state_log.len() + 1,
            marked@.state_log.last() == new_state@,
            marked@.state_log.take(self@.state_log.len() as int) == self@.state_log,
    {
        let mut marked = self;
        marked.state_log.push(new_state);
        assert(marked.state_log.deep_view() =~= self.state_log.deep_view().push(new_state@));
        assert(marked@.state_log.take(self@.state_log.len() as int) =~= self@.state_log);
        marked
    }
}

/// The projects in a row, each behind a `?`, in yellow and followed by a space.
pub open spec fn project_row(projects: Seq<Seq<char>>) -> Seq<char>
    decreases projects.len(),
{
    if projects.len() == 0 {
        Seq::empty()
    } else {
        project_row(projects.drop_last()) + yellow_text("?"@) + yellow_text(projects.last()) + " "@
    }
}

/// The people in a row, each behind an `@`, in blue and followed by a space.
pub open spec fn people_row(people: Seq<Seq<char>>) -> Seq<char>
    decreases people.len(),
{
    if people.len() == 0 {
        Seq::empty()
    } else {
        people_row(people.drop_last()) + bold_text(blue_text("@"@)) + blue_text(people.last())
            + " "@
    }
}

/// The area, where there is one, behind a `#`, in green and followed by a space.
pub open spec fn area_part(area: Option<Area>) -> Seq<char> {
    match area {
        Some(area) => green_text("#"@) + green_text(area.name()) + " "@,
        None => Seq::empty(),
    }
}

/// The description, where there is one, on a line of its own.
pub open spec fn description_part(description: Option<Seq<char>>) -> Seq<char> {
    match description {
        Some(text) => bright_black_text("⍘"@) + " "@ + bright_black_text(text) + "\n"@,
        None => Seq::empty(),
    }
}

/// A formatted date as it is shown.
pub open spec fn date_part(date: Option<Seq<char>>) -> Seq<char> {
    match date {
        Some(text) => bright_black_text(italic_text(text)),
        None => Seq::empty(),
    }
}

/// What is left until the end date: the days, and the same span in hours.
pub open spec fn remaining_part(days: Option<int>) -> Seq<char> {
    match days {
        Some(days) => bold_text(
            bright_black_text(" ◕ "@ + decimal(days) + "d"@ + decimal(days * 24) + "h"@),
        ),
        None => Seq::empty(),
    }
}

/// The line of the current state and the id.
pub open spec fn head_part(task: TaskView) -> Seq<char> {
    on_magenta_text(black_text(task.state_log.last().label())) + "\t"@ + bright_black_text("⍙"@)
        + " "@ + bold_text(bright_black_text(decimal(task.id))) + "\n"@
}

/// The line of the title.
pub open spec fn title_part(task: TaskView) -> Seq<char> {
    "⍜ "@ + bold_text(task.title) + "\n"@
}

/// The line of the area, the projects and the people.
pub open spec fn labels_part(task: TaskView) -> Seq<char> {
    area_part(task.area) + project_row(task.projects) + people_row(task.people) + "\n"@
}

/// The start date, an arrow, and the end date with what is left until it.
pub open spec fn dates_part(start: Option<Seq<char>>, end: Option<Seq<char>>, days_left: Option<int>) -> Seq<
    char,
> {
    date_part(start) + bold_text(bright_black_text(" ⇰ "@)) + date_part(end) + remaining_part(
        days_left,
    )
}

/// A task as the terminal shows it: the current state and the id; the title; the
/// description; the area, projects and people; then the dates. `start` and `end` are the
/// two dates formatted, and `days_left` the days from the current date to the end.
pub open spec fn colorful_text(
    task: TaskView,
    start: Option<Seq<char>>,
    end: Option<Seq<char>>,
    days_left: Option<int>,
) -> Seq<char> {
    head_part(task) + title_part(task) + description_part(task.description) + labels_part(task)
        + dates_part(start, end, days_left)
}

/// The text of a date that was formatted, or nothing where there is no date.
pub open spec fn formatted_text(formatted: Option<Result<String, String>>) -> Option<Seq<char>> {
    match formatted {
        Some(Ok(text)) => Some(text@),
        _ => None,
    }
}

/// Formatting was tried and did not succeed.
pub open spec fn failed(formatted: Option<Result<String, String>>) -> bool {
    formatted is Some && formatted->Some_0 is Err
}

/// What [`Task::colorful`] makes of a task and its two dates as they were formatted. A task
/// without a state is `EveryTaskShouldHaveAtLeastOneState`; after that, a start date that
/// could not be formatted is `CouldNotFormatToFileName` with the formatter's message, and
/// after that an end date that could not be.
pub open spec fn colorful_outcome(
    task: TaskView,
    current_date: Date,
    start: Option<Result<String, String>>,
    end: Option<Result<String, String>>,
    out: Result<String, Error>,
) -> bool {
    if task.state_log.len() == 0 {
        out == Err::<String, Error>(Error::EveryTaskShouldHaveAtLeastOneState)
    } else if failed(start) {
        out is Err && out->Err_0 is CouldNotFormatToFileName
            && out->Err_0->CouldNotFormatToFileName_0@ == start->Some_0->Err_0@
    } else if failed(end) {
        out is Err && out->Err_0 is CouldNotFormatToFileName
            && out->Err_0->CouldNotFormatToFileName_0@ == end->Some_0->Err_0@
    } else {
        out is Ok && out->Ok_0@ == colorful_text(
            task,
            formatted_text(start),
            formatted_text(end),
            match (task.end, end) {
                (Some(date), Some(_)) => Some(date.julian_day - current_date.julian_day),
                _ => None,
            },
        )
    }
}

/// `format_date` gave `formatted` for the date, or there is no date and nothing was
/// formatted.
pub open spec fn formatted_by<F: Fn(&Date) -> Result<String, String>>(
    format_date: F,
    date: Option<Date>,
    formatted: Option<Result<String, String>>,
) -> bool {
    match date {
        Some(date) => formatted is Some && call_ensures(format_date, (&date,), formatted->Some_0),
        None => formatted is None,
    }
}

/// What [`Task::print_colorful_with_current_duration`] gives: what [`Task::colorful`] makes
/// of the task's dates as `format_date` formatted them. The end date is formatted only
/// where the start date did not fail.
pub open spec fn print_colorful_outcome<F: Fn(&Date) -> Result<String, String>>(
    task: TaskView,
    current_date: Date,
    format_date: F,
    out: Result<String, Error>,
) -> bool {
    exists|start: Option<Result<String, String>>, end: Option<Result<String, String>>|
        #![trigger colorful_outcome(task, current_date, start, end, out)]
        {
            &&& formatted_by(format_date, task.start, start)
            &&& failed(start) || formatted_by(format_date, task.end, end)
            &&& colorful_outcome(task, current_date, start, end, out)
        }
}

fn date_line(date: &Option<String>) -> (line: String)
    ensures
        line@ == date_part(date.deep_view()),
{
    match date {
        Some(text) => bright_black(italic(text.as_str()).as_str()),
        None => String::new(),
    }
}

fn remaining_line(days_left: Option<i64>) -> (line: String)
    requires
        days_left matches Some(days) ==> -0x1_0000_0000 <= days <= 0x1_0000_0000,
    ensures
        line@ == remaining_part(
            match days_left {
                Some(days) => Some(days as int),
                None => None,
            },
        ),
{
    match days_left {
        Some(days) => {
            let mut left = " ◕ ".to_owned();
            left.append(decimal_text(days as i128).as_str());
            left.append("d");
            left.append(decimal_text((days * 24) as i128).as_str());
            left.append("h");
            bold(bright_black(left.as_str()).as_str())
        },
        None => String::new(),
    }
}

fn dates_line(start: &Option<String>, end: &Option<String>, days_left: Option<i64>) -> (line: String)
    requires
        days_left matches Some(days) ==> -0x1_0000_0000 <= days <= 0x1_0000_0000,
    ensures
        line@ == dates_part(
            start.deep_view(),
            end.deep_view(),
            match days_left {
                Some(days) => Some(days as int),
                None => None,
            },
        ),
{
    let mut line = date_line(start);
    line.append(bold(bright_black(" ⇰ ").as_str()).as_str());
    line.append(date_line(end).as_str());
    line.append(remaining_line(days_left).as_str());
    line
}

impl Task {
    /// Renders the task for the terminal. `start` and `end` are what formatting the task's
    /// two dates gave, `None` where the task has no such date.
    pub fn colorful(
        &self,
        current_date: Date,
        start: Option<Result<String, String>>,
        end: Option<Result<String, String>>,
    ) -> (out: Result<String, Error>)
        ensures
            colorful_outcome(self@, current_date, start, end, out),
    {
        let state = match self.current_state() {
            Some(state) => state,
            None => {
                return Err(Error::EveryTaskShouldHaveAtLeastOneState);
            },
        };
        assert(state@ == self@.state_log.last());
        let start_text = match start {
            Some(Err(cause)) => {
                return Err(Error::CouldNotFormatToFileName(cause));
            },
            Some(Ok(text)) => Some(text),
            None => None,
        };
        let end_text = match end {
            Some(Err(cause)) => {
                return Err(Error::CouldNotFormatToFileName(cause));
            },
            Some(Ok(text)) => Some(text),
            None => None,
        };
        let days_left = match (&self.end, &end_text) {
            (Some(at), Some(_)) => Some(at.days_since(&current_date)),
            _ => None,
        };
        let mut all_buf = self.head_line(state);
        all_buf.append(self.title_line().as_str());
        all_buf.append(self.description_line().as_str());
        all_buf.append(self.labels_line().as_str());
        all_buf.append(dates_line(&start_text, &end_text, days_left).as_str());
        Ok(all_buf)
    }

    fn head_line(&self, state: &State) -> (line: String)
        requires
            self@.state_log.len() > 0,
            state@ == self@.state_log.last(),
        ensures
            line@ == head_part(self@),
    {
        let mut line = on_magenta(black(state.to_string().as_str()).as_str());
        line.append("\t");
        line.append(bright_black("⍙").as_str());
        line.append(" ");
        line.append(bold(bright_black(decimal_text(self.id as i128).as_str()).as_str()).as_str());
        line.append("\n");
        line
    }

    fn title_line(&self) -> (line: String)
        ensures
            line@ == title_part(self@),
    {
        let mut line = "⍜ ".to_owned();
        line.append(bold(self.title.as_str()).as_str());
        line.append("\n");
        line
    }

    fn description_line(&self) -> (line: String)
        ensures
            line@ == description_part(self@.description),
    {
        match &self.description {
            Some(description) => {
                let mut line = bright_black("⍘");
                line.append(" ");
                line.append(bright_black(description.as_str()).as_str());
                line.append("\n");
                line
            },
            None => String::new(),
        }
    }

    fn labels_line(&self) -> (line: String)
        ensures
            line@ == labels_part(self@),
    {
        let mut line = match &self.area {
            Some(content) => {
                let mut part = green("#");
                part.append(green(content.to_string().as_str()).as_str());
                part.append(" ");
                part
            },
            None => String::new(),
        };
        line.append(self.projects_line().as_str());
        line.append(self.people_line().as_str());
        line.append("\n");
        line
    }

    fn projects_line(&self) -> (line: String)
        ensures
            line@ == project_row(self@.projects),
    {
        let mut line = String::new();
        let mut i: usize = 0;
        while i < self.projects.len()
            invariant
                i <= self.projects.len(),
                line@ == project_row(self.projects.deep_view().take(i as int)),
            decreases self.projects.len() - i,
        {
            line.append(yellow("?").as_str());
            line.append(yellow(self.projects[i].as_str()).as_str());
            line.append(" ");
            i = i + 1;
            assert(self.projects.deep_view().take(i as int).drop_last()
                =~= self.projects.deep_view().take(i - 1));
        }
        assert(self.projects.deep_view().take(self.projects.len() as int)
            =~= self.projects.deep_view());
        line
    }

    fn people_line(&self) -> (line: String)
        ensures
            line@ == people_row(self@.people),
    {
        let mut line = String::new();
        let mut i: usize = 0;
        while i < self.people.len()
            invariant
                i <= self.people.len(),
                line@ == people_row(self.people.deep_view().take(i as int)),
            decreases self.people.len() - i,
        {
            line.append(bold(blue("@").as_str()).as_str());
            line.append(blue(self.people[i].as_str()).as_str());
            line.append(" ");
            i = i + 1;
            assert(self.people.deep_view().take(i as int).drop_last()
                =~= self.people.deep_view().take(i - 1));
        }
        assert(self.people.deep_view().take(self.people.len() as int) =~= self.people.deep_view());
        line
    }

    /// Renders the task for the terminal as [`Task::colorful`] does, with the task's dates
    /// formatted by `format_date`.
    pub fn print_colorful_with_current_duration<F: Fn(&Date) -> Result<String, String>>(
        &self,
        current_date: Date,
        format_date: &F,
    ) -> (out: Result<String, Error>)
        requires
            forall|date: &Date| call_requires(*format_date, (date,)),
        ensures
            print_colorful_outcome(self@, current_date, *format_date, out),
    {
        let start = match &self.start {
            Some(date) => Some(format_date(date)),
            None => None,
        };
        let start_failed = match &start {
            Some(Err(_)) => true,
            _ => false,
        };
        let end = if start_failed {
            None
        } else {
            match &self.end {
                Some(date) => Some(format_date(date)),
                None => None,
            }
        };
        let out = self.colorful(current_date, start, end);
        assert(colorful_outcome(self@, current_date, start, end, out));
        out
    }
}

} // verus!


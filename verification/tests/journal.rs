use std::sync::Arc;

use prmait::effects::{Effect, EffectKind};
use prmait::journal::effectors::{
    edit_all_entries, edit_last_entry, edit_specific_entry, list_entries, new_entry,
};
use prmait::journal::{Book, Entry, EntryDescription, Error, Mood};
use prmait::timeutils::Timestamp;

fn is_normal<T: Sized + Send + Sync + Unpin>() {}

#[test]
fn book_normal_types() {
    is_normal::<Book>();
}

#[test]
fn entry_normal_types() {
    is_normal::<Entry>();
}

fn strings(items: &[&str]) -> Vec<String> {
    items.iter().map(|x| x.to_string()).collect()
}

fn entry(body: &str, tag: &[&str]) -> Entry {
    Entry {
        at: Timestamp { unix_seconds: 1_700_000_000, nanosecond: 0, offset_seconds: 3600 },
        body: Arc::new(body.to_owned()),
        tag: strings(tag),
        mood: Mood::Good,
        people: strings(&["hoverbear", "mr_leafslug"]),
    }
}

fn book(names: &[&str]) -> Book {
    Book {
        entries: names
            .iter()
            .map(|name| EntryDescription { entry: entry("body", &[]), file_name: name.to_string() })
            .collect(),
        location: "journal".to_owned(),
    }
}

fn command(effect: &Effect) -> (String, Vec<String>, usize, bool) {
    match &effect.effect_kind {
        EffectKind::RunExternalCommand(program, args, env) => {
            (program.clone(), args.clone(), env.len(), effect.forgiving)
        }
        other => panic!("not an external command: {other:?}"),
    }
}

fn assert_chain(effects: &[Effect], root: &str, files: &[&str], message: &str) {
    assert_eq!(effects.len(), 4);
    let mut staged = vec!["-C", root, "add"];
    staged.extend_from_slice(files);
    assert_eq!(command(&effects[0]), ("git".to_owned(), strings(&staged), 0, false));
    assert_eq!(
        command(&effects[1]),
        ("git".to_owned(), strings(&["-C", root, "commit", "-m", message]), 0, false)
    );
    assert_eq!(command(&effects[2]), ("git".to_owned(), strings(&["-C", root, "pull"]), 0, false));
    assert_eq!(command(&effects[3]), ("git".to_owned(), strings(&["-C", root, "push"]), 0, false));
}

fn assert_editor(effect: &Effect, editor: &str, files: &[&str]) {
    match effect {
        Effect { effect_kind: EffectKind::OpenInEditor(opts), forgiving: true } => {
            assert_eq!(opts.editor, editor);
            assert_eq!(opts.files_to_edit, strings(files));
        }
        other => panic!("unexpected: {other:?}"),
    }
}

#[test]
fn test_new() {
    let em = new_entry("", "somerepo", Ok("2023.json".to_owned()), Ok("{}".to_owned())).unwrap();
    assert_eq!(em.0.len(), 6);
}

#[test]
fn new_entry_creates_the_directory_and_the_file() {
    let em = new_entry("journal", "root", Ok("e.json".to_owned()), Ok("doc".to_owned())).unwrap();
    match &em.0[0] {
        Effect { effect_kind: EffectKind::CreateDir(opts), forgiving: false } => {
            assert_eq!(opts.folder_path, "journal");
            assert!(opts.ok_if_exists);
        }
        other => panic!("unexpected: {other:?}"),
    }
    match &em.0[1] {
        Effect { effect_kind: EffectKind::WriteToFile(opts), forgiving: false } => {
            assert_eq!(opts.content, b"doc".to_vec());
            assert_eq!(opts.file_path, "journal/e.json");
            assert!(opts.can_create);
            assert!(!opts.can_overwrite);
        }
        other => panic!("unexpected: {other:?}"),
    }
    assert_chain(
        &em.0[2..],
        "root",
        &["journal/e.json"],
        "feat(journal): add new journal entry e.json",
    );
}

#[test]
fn new_entry_reports_what_failed_first() {
    assert_eq!(
        new_entry("j", "r", Err("fmt".to_owned()), Err("ser".to_owned())).err(),
        Some(Error::CouldNotFormatToFileName("fmt".to_owned()))
    );
    assert_eq!(
        new_entry("j", "r", Ok("e.json".to_owned()), Err("ser".to_owned())).err(),
        Some(Error::FileCouldNotSerializeEntryIntoJson("ser".to_owned(), "e.json".to_owned()))
    );
}

#[test]
fn listing_prints_the_table() {
    let em = list_entries(Ok("table".to_owned())).unwrap();
    assert_eq!(em.0.len(), 1);
    assert!(matches!(
        &em.0[0],
        Effect { effect_kind: EffectKind::PrintToStdOut(text), forgiving: false } if text == "table"
    ));
    assert_eq!(
        list_entries(Err("bad".to_owned())).err(),
        Some(Error::CouldNotFormatToFileName("bad".to_owned()))
    );
}

#[test]
fn editing_the_last_entry() {
    let em = edit_last_entry("journal", &book(&["a.json", "b.json"]), "root", "vi".to_owned())
        .unwrap();
    assert_eq!(em.0.len(), 5);
    assert_editor(&em.0[0], "vi", &["journal/b.json"]);
    assert_chain(&em.0[1..], "root", &["journal/b.json"], "feat(journal): edit the entry b.json");
    assert_eq!(
        edit_last_entry("journal", &book(&[]), "root", "vi".to_owned()).err(),
        Some(Error::NoEntries)
    );
}

#[test]
fn editing_the_entries_that_match() {
    let shelf = book(&["2023-01.json", "2023-02.json", "2024-01.json"]);
    let em = edit_specific_entry("journal", "2023", &shelf, "root", "vi".to_owned()).unwrap();
    assert_eq!(em.0.len(), 5);
    assert_editor(&em.0[0], "vi", &["journal/2023-01.json", "journal/2023-02.json"]);
    assert_chain(
        &em.0[1..],
        "root",
        &["journal/2023-01.json", "journal/2023-02.json"],
        "feat(journal): edit the few entries",
    );
    let em = edit_specific_entry("journal", "nothing", &shelf, "root", "vi".to_owned()).unwrap();
    assert_editor(&em.0[0], "vi", &[]);
    assert_chain(&em.0[1..], "root", &[], "feat(journal): edit the few entries");
}

#[test]
fn editing_all_entries_stages_the_root() {
    let em = edit_all_entries("vi".to_owned(), &book(&["a.json", "b.json"]), "root").unwrap();
    assert_eq!(em.0.len(), 5);
    assert_editor(&em.0[0], "vi", &["journal/a.json", "journal/b.json"]);
    assert_chain(&em.0[1..], "root", &["root"], "feat(journal): edit the few entries");
}

#[test]
fn book_lists_its_files() {
    assert_eq!(book(&["a.json", "b.json"]).files(), strings(&["journal/a.json", "journal/b.json"]));
    assert_eq!(book(&[]).files(), Vec::<String>::new());
    let absolute = Book { location: "/x/".to_owned(), ..book(&["a"]) };
    assert_eq!(absolute.files(), strings(&["/x/a"]));
}

#[test]
fn truncated_form_cuts_the_body() {
    let shelf = Book {
        entries: vec![
            EntryDescription { entry: entry("a long body", &[]), file_name: "a.json".to_owned() },
            EntryDescription { entry: entry("tiny", &[]), file_name: "b.json".to_owned() },
            EntryDescription { entry: entry("", &[]), file_name: "c.json".to_owned() },
        ],
        location: "journal".to_owned(),
    };
    assert_eq!(
        shelf.truncated_form(6),
        strings(&["a.json -> a long ... ", "b.json -> tiny ... ", "c.json ->  ... "])
    );
    assert_eq!(
        shelf.truncated_form(0),
        strings(&["a.json ->  ... ", "b.json ->  ... ", "c.json ->  ... "])
    );
    assert_eq!(shelf.truncated_form(4)[1], "b.json -> tiny ... ");
}

#[test]
fn truncated_form_cuts_between_characters() {
    let shelf = Book {
        entries: vec![EntryDescription {
            entry: entry("añb", &[]),
            file_name: "a".to_owned(),
        }],
        location: "j".to_owned(),
    };
    assert_eq!(shelf.truncated_form(1), strings(&["a -> a ... "]));
    assert_eq!(shelf.truncated_form(3), strings(&["a -> añ ... "]));
}

#[test]
fn book_from_its_parts() {
    let made = Book::from((book(&["a"]).entries, "journal".to_owned()));
    assert_eq!(made, book(&["a"]));
}

#[test]
fn pretty_form_of_an_entry() {
    let e = entry("body", &["tag1", "tag2"]);
    assert_eq!(
        e.pretty_formated(Ok("2023-11-14".to_owned())),
        Ok("\u{1b}[2m2023-11-14\u{1b}[0m\n\u{1b}[1mbody\u{1b}[0m\n#\u{1b}[3mtag1\u{1b}[0m #\u{1b}[3mtag2\u{1b}[0m "
            .to_owned())
    );
    assert_eq!(
        entry("b", &[]).pretty_formated(Ok("d".to_owned())),
        Ok("\u{1b}[2md\u{1b}[0m\n\u{1b}[1mb\u{1b}[0m\n".to_owned())
    );
    assert_eq!(
        e.pretty_formated(Err("bad".to_owned())),
        Err(Error::CouldNotFormatToFileName("bad".to_owned()))
    );
}

#[test]
fn moods_have_their_names() {
    assert_eq!(Mood::Good.to_string(), "Good");
    assert_eq!(Mood::Bad.to_string(), "Bad");
    assert_eq!(Mood::Neutral.to_string(), "Neutral");
    assert_eq!(Mood::default(), Mood::Neutral);
}

#[test]
fn entries_are_ordered_by_their_instant() {
    let at = |unix_seconds, nanosecond, offset_seconds| Entry {
        at: Timestamp { unix_seconds, nanosecond, offset_seconds },
        ..entry("b", &[])
    };
    assert!(at(1, 0, 0) < at(2, 0, 0));
    assert!(at(2, 0, 0) > at(1, 999, 0));
    assert!(at(1, 1, 0) < at(1, 2, 0));
    assert!(at(1, 1, 7200) <= at(1, 1, 0));
    assert!(at(1, 1, 7200) >= at(1, 1, 0));
    assert_eq!(
        at(1, 1, 7200).partial_cmp(&at(1, 1, -3600)),
        Some(std::cmp::Ordering::Equal)
    );
    assert_eq!(
        entry("one", &[]).partial_cmp(&entry("another", &["t"])),
        Some(std::cmp::Ordering::Equal)
    );
}

#[test]
fn journal_errors_have_their_messages() {
    assert_eq!(Error::NoEntries.to_string(), "there is entry to be found");
    assert_eq!(
        Error::FileCouldNotSerializeEntryIntoJson("bad".to_owned(), "e.json".to_owned())
            .to_string(),
        "could serialize entry e.json to json: bad"
    );
    assert_eq!(
        Error::CouldNotDeserializeEntryFromJson(
            Box::new(Error::FileCouldNotDeserializeEntryFromJson("eof".to_owned(), "{".to_owned())),
            "e.json".to_owned()
        )
        .to_string(),
        "could deserialize entry e.json from json: could deserialize entry { from json: eof"
    );
    assert_eq!(
        Error::GitError(prmait::git::Error::CouldNotGetGitRootName).to_string(),
        "got error from running git command: could not get the directory name of the git project for some reason"
    );
    assert_eq!(Error::IsNotAFile.to_string(), "the path is not a file");
}

#[test]
fn an_entry_description_takes_the_name_of_its_file() {
    assert_eq!(
        EntryDescription::new(entry("b", &[]), "journal/e.json"),
        Ok(EntryDescription { entry: entry("b", &[]), file_name: "e.json".to_owned() })
    );
    assert_eq!(EntryDescription::new(entry("b", &[]), "/"), Err(Error::IsNotAFile));
}

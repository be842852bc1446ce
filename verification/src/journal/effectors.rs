use vstd::prelude::*;

use super::book::{Book, EntryDescriptionView};
use super::error::Error;
use crate::effects::{
    CreateDirOpts, EffectKind, EffectKindView, EffectMachine, EffectView, FileWriterOpts,
    OpenInEditorOpts,
};
use crate::git::{sync_chain, sync_change};
use crate::files::{join_path, joined_path};
use crate::text::{
    clone_texts, contains_text, is_infix, lemma_deep_view_take_next, push_text,
};

verus! {

/// The message of the commit that records a new entry.
pub open spec fn new_entry_message(file_name: Seq<char>) -> Seq<char> {
    "feat(journal): add new journal entry "@ + file_name
}

/// What creating an entry does: the directory is made sure of, the entry's file is created,
/// never overwritten, and the change is carried to the remote.
pub open spec fn new_entry_view(
    journal_path: Seq<char>,
    file_name: Seq<char>,
    document: Seq<char>,
    repo_root: Seq<char>,
) -> Seq<EffectView> {
    let file_path = joined_path(journal_path, file_name);
    seq![
        EffectView {
            effect_kind: EffectKindView::CreateDir { folder_path: journal_path, ok_if_exists: true },
            forgiving: false,
        },
        EffectView {
            effect_kind: EffectKindView::WriteToFile {
                content: vstd::utf8::encode_utf8(document),
                file_path,
                can_create: true,
                can_overwrite: false,
            },
            forgiving: false,
        },
    ] + sync_chain(repo_root, seq![file_path], new_entry_message(file_name))
}

/// Describes the creation of an entry.
/// `file_name` is what formatting the entry's time gave and `document` what serializing the
/// entry gave; in each, `Err` holds the message of the step that failed. A failed file name
/// comes back as `CouldNotFormatToFileName`; after that, a failed document as
/// `FileCouldNotSerializeEntryIntoJson` with the file's name.
pub fn new_entry(
    journal_path: &str,
    repo_root: &str,
    file_name: Result<String, String>,
    document: Result<String, String>,
) -> (effects: Result<EffectMachine, Error>)
    ensures
        match (file_name, document) {
            (Err(cause), _) => effects is Err && effects->Err_0 is CouldNotFormatToFileName
                && effects->Err_0->CouldNotFormatToFileName_0@ == cause@,
            (Ok(name), Err(cause)) => effects is Err
                && effects->Err_0 is FileCouldNotSerializeEntryIntoJson
                && effects->Err_0->FileCouldNotSerializeEntryIntoJson_0@ == cause@
                && effects->Err_0->FileCouldNotSerializeEntryIntoJson_1@ == name@,
            (Ok(name), Ok(text)) => effects is Ok && effects->Ok_0@ == new_entry_view(
                journal_path@,
                name@,
                text@,
                repo_root@,
            ),
        },
{
    let mut effects = EffectMachine::default();
    let file_name = match file_name {
        Ok(name) => name,
        Err(cause) => {
            return Err(Error::CouldNotFormatToFileName(cause));
        },
    };
    let file_path = join_path(journal_path, file_name.as_str());
    effects.add(
        EffectKind::CreateDir(
            CreateDirOpts { folder_path: journal_path.to_owned(), ok_if_exists: true },
        ),
        false,
    );
    let text = match document {
        Ok(text) => text,
        Err(cause) => {
            return Err(Error::FileCouldNotSerializeEntryIntoJson(cause, file_name));
        },
    };
    effects.add(
        EffectKind::WriteToFile(
            FileWriterOpts {
                content: text.as_str().as_bytes_vec(),
                file_path: file_path.clone(),
                can_create: true,
                can_overwrite: false,
            },
        ),
        false,
    );
    let mut message = "feat(journal): add new journal entry ".to_owned();
    message.append(file_name.as_str());
    let mut files: Vec<String> = Vec::new();
    files.push(file_path);
    assert(files.deep_view() =~= seq![joined_path(journal_path@, file_name@)]);
    sync_change(&mut effects, repo_root, files.as_slice(), message.as_str());
    assert(effects@ =~= new_entry_view(journal_path@, file_name@, text@, repo_root@));
    Ok(effects)
}

/// Describes the listing of the entries. `table` is what rendering the book as a table
/// gave: the text to print, or the message of the date that could not be formatted, which
/// comes back as `CouldNotFormatToFileName`.
pub fn list_entries(table: Result<String, String>) -> (effects: Result<EffectMachine, Error>)
    ensures
        match table {
            Ok(text) => effects is Ok && effects->Ok_0@ == seq![
                EffectView { effect_kind: EffectKindView::PrintToStdOut(text@), forgiving: false },
            ],
            Err(cause) => effects is Err && effects->Err_0 is CouldNotFormatToFileName
                && effects->Err_0->CouldNotFormatToFileName_0@ == cause@,
        },
{
    let mut efs = EffectMachine::default();
    match table {
        Ok(text) => {
            efs.add(EffectKind::PrintToStdOut(text), false);
            Ok(efs)
        },
        Err(cause) => Err(Error::CouldNotFormatToFileName(cause)),
    }
}

/// An editor session on the files, forgiven when it fails, and then the synchronization
/// chain, which is not.
pub open spec fn edit_view(
    editor: Seq<char>,
    files_to_edit: Seq<Seq<char>>,
    repo_root: Seq<char>,
    changed: Seq<Seq<char>>,
    message: Seq<char>,
) -> Seq<EffectView> {
    seq![
        EffectView {
            effect_kind: EffectKindView::OpenInEditor { editor, files_to_edit },
            forgiving: true,
        },
    ] + sync_chain(repo_root, changed, message)
}

fn edit(
    editor: String,
    files_to_edit: Vec<String>,
    repo_root: &str,
    changed: &[String],
    message: &str,
) -> (effects: EffectMachine)
    ensures
        effects@ == edit_view(
            editor@,
            files_to_edit.deep_view(),
            repo_root@,
            changed.deep_view(),
            message@,
        ),
{
    let mut effects = EffectMachine::default();
    effects.add(EffectKind::OpenInEditor(OpenInEditorOpts { editor, files_to_edit }), true);
    sync_change(&mut effects, repo_root, changed, message);
    assert(effects@ =~= edit_view(
        editor@,
        files_to_edit.deep_view(),
        repo_root@,
        changed.deep_view(),
        message@,
    ));
    effects
}

/// Describes the editing of the newest entry, which is the last of the book.
/// An empty book is `NoEntries`.
pub fn edit_last_entry(journal_path: &str, book: &Book, repo_root: &str, editor: String) -> (effects:
    Result<EffectMachine, Error>)
    ensures
        book@.entries.len() == 0 ==> effects == Err::<EffectMachine, Error>(Error::NoEntries),
        book@.entries.len() > 0 ==> effects is Ok && ({
            let file_name = book@.entries.last().file_name;
            let path = joined_path(journal_path@, file_name);
            effects->Ok_0@ == edit_view(
                editor@,
                seq![path],
                repo_root@,
                seq![path],
                "feat(journal): edit the entry "@ + file_name,
            )
        }),
{
    if book.entries.len() == 0 {
        return Err(Error::NoEntries);
    }
    let last_entry = &book.entries[book.entries.len() - 1];
    assert(last_entry@ == book@.entries.last());
    let file_name = &last_entry.file_name;
    let ent_path = join_path(journal_path, file_name.as_str());
    let mut files_to_edit: Vec<String> = Vec::new();
    files_to_edit.push(ent_path.clone());
    let mut changed: Vec<String> = Vec::new();
    changed.push(ent_path);
    assert(files_to_edit.deep_view() =~= seq![joined_path(journal_path@, file_name@)]);
    assert(changed.deep_view() =~= seq![joined_path(journal_path@, file_name@)]);
    let mut message = "feat(journal): edit the entry ".to_owned();
    message.append(file_name.as_str());
    Ok(edit(editor, files_to_edit, repo_root, changed.as_slice(), message.as_str()))
}

/// The paths of the entries whose file name contains the specifier, in the order of the book.
pub open spec fn specified_paths(
    journal_path: Seq<char>,
    entries: Seq<EntryDescriptionView>,
    specifier: Seq<char>,
) -> Seq<Seq<char>>
    decreases entries.len(),
{
    if entries.len() == 0 {
        Seq::empty()
    } else {
        let earlier = specified_paths(journal_path, entries.drop_last(), specifier);
        if is_infix(entries.last().file_name, specifier) {
            earlier.push(joined_path(journal_path, entries.last().file_name))
        } else {
            earlier
        }
    }
}

/// Describes the editing of the entries whose file name contains `specifier`. The editor
/// opens on those files, and the same files are staged.
pub fn edit_specific_entry(
    journal_path: &str,
    specifier: &str,
    book: &Book,
    repo_root: &str,
    editor: String,
) -> (effects: Result<EffectMachine, Error>)
    ensures
        effects is Ok,
        ({
            let paths = specified_paths(journal_path@, book@.entries, specifier@);
            effects->Ok_0@ == edit_view(
                editor@,
                paths,
                repo_root@,
                paths,
                "feat(journal): edit the few entries"@,
            )
        }),
{
    let mut ent_path: Vec<String> = Vec::new();
    let mut i: usize = 0;
    assert(book@.entries.take(0) =~= Seq::<EntryDescriptionView>::empty());
    assert(ent_path.deep_view() =~= Seq::<Seq<char>>::empty());
    while i < book.entries.len()
        invariant
            i <= book.entries.len(),
            ent_path.deep_view() == specified_paths(
                journal_path@,
                book@.entries.take(i as int),
                specifier@,
            ),
        decreases book.entries.len() - i,
    {
        let ent = &book.entries[i];
        if contains_text(ent.file_name.as_str(), specifier) {
            push_text(&mut ent_path, join_path(journal_path, ent.file_name.as_str()));
        }
        proof {
            lemma_deep_view_take_next(book.entries, i as int);
            assert(book@.entries.take(i + 1).drop_last() =~= book@.entries.take(i as int));
        }
        i = i + 1;
    }
    assert(book@.entries.take(book.entries.len() as int) =~= book@.entries);
    let fp = clone_texts(&ent_path);
    Ok(edit(editor, ent_path, repo_root, fp.as_slice(), "feat(journal): edit the few entries"))
}

/// Describes the editing of all entries. The editor opens on every file of the book; what
/// is staged is the repository's root itself.
pub fn edit_all_entries(editor: String, book: &Book, repo_root: &str) -> (effects: Result<
    EffectMachine,
    Error,
>)
    ensures
        effects is Ok,
        effects->Ok_0@ == edit_view(
            editor@,
            book.file_paths(),
            repo_root@,
            seq![repo_root@],
            "feat(journal): edit the few entries"@,
        ),
{
    let mut changed: Vec<String> = Vec::new();
    changed.push(repo_root.to_owned());
    assert(changed.deep_view() =~= seq![repo_root@]);
    Ok(
        edit(
            editor,
            book.files(),
            repo_root,
            changed.as_slice(),
            "feat(journal): edit the few entries",
        ),
    )
}

} // verus!

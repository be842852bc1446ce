use vstd::prelude::*;

use crate::text::same_text;

verus! {

/// The path that `Path::join` of std makes of a directory and a name under it.
pub uninterp spec fn joined_path(directory: Seq<char>, name: Seq<char>) -> Seq<char>;

/// The extension that `Path::extension` of std finds in a path, if it finds one.
pub uninterp spec fn path_extension(path: Seq<char>) -> Option<Seq<char>>;

/// The final component that `Path::file_name` of std finds in a path, if it finds one.
pub uninterp spec fn path_file_name(path: Seq<char>) -> Option<Seq<char>>;

/// The path without its final component as `Path::parent` of std gives it, if there is one.
pub uninterp spec fn path_parent(path: Seq<char>) -> Option<Seq<char>>;

/// `Path::join` of std, on paths that are valid text. The contract names the result: what
/// the join makes of a directory and a name depends on the two alone.
#[verifier::external_body]
pub(crate) fn join_path(directory: &str, name: &str) -> (path: String)
    ensures
        path@ == joined_path(directory@, name@),
{
    std::path::Path::new(directory).join(name).to_string_lossy().into_owned()
}

/// `Path::extension` of std, on a path that is valid text. The contract names the result:
/// the extension depends on the path alone.
#[verifier::external_body]
pub(crate) fn extension(path: &str) -> (found: Option<String>)
    ensures
        found.deep_view() == path_extension(path@),
{
    match std::path::Path::new(path).extension() {
        Some(extension) => Some(extension.to_string_lossy().into_owned()),
        None => None,
    }
}

/// `Path::file_name` of std, on a path that is valid text. The contract names the result:
/// the final component depends on the path alone.
#[verifier::external_body]
pub(crate) fn file_name(path: &str) -> (found: Option<String>)
    ensures
        found.deep_view() == path_file_name(path@),
{
    match std::path::Path::new(path).file_name() {
        Some(name) => Some(name.to_string_lossy().into_owned()),
        None => None,
    }
}

/// `Path::parent` of std, on a path that is valid text. The contract names the result: the
/// parent depends on the path alone.
#[verifier::external_body]
pub(crate) fn parent(path: &str) -> (found: Option<String>)
    ensures
        found.deep_view() == path_parent(path@),
{
    match std::path::Path::new(path).parent() {
        Some(parent) => Some(parent.to_string_lossy().into_owned()),
        None => None,
    }
}

/// Tells whether the path has the extension `json`.
#[must_use]
pub fn is_json(p: &str) -> (json: bool)
    ensures
        json == (path_extension(p@) == Some("json"@)),
{
    match extension(p) {
        Some(x) => same_text(x.as_str(), "json"),
        None => false,
    }
}

} // verus!

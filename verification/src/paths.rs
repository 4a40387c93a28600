//! Path components, read off a path given as text.

use crate::ir::opt_text;
use vstd::prelude::*;

verus! {

/// What `std::path::Path::file_stem` gives for a path.
pub uninterp spec fn file_stem_of(path: Seq<char>) -> Option<Seq<char>>;

/// What `std::path::Path::file_name` gives for a path.
pub uninterp spec fn file_name_of(path: Seq<char>) -> Option<Seq<char>>;

/// What `std::path::Path::parent` gives for a path.
pub uninterp spec fn parent_of(path: Seq<char>) -> Option<Seq<char>>;

/// What `std::path::Path::extension` gives for a path.
pub uninterp spec fn extension_of(path: Seq<char>) -> Option<Seq<char>>;

/// Wraps `Path::file_stem`; the result is named [`file_stem_of`].
#[verifier::external_body]
pub(crate) fn file_stem(path: &str) -> (r: Option<String>)
    ensures
        opt_text(r) == file_stem_of(path@),
{
    std::path::Path::new(path).file_stem().and_then(|s| s.to_str()).map(|s| s.to_string())
}

/// Wraps `Path::file_name`; the result is named [`file_name_of`].
#[verifier::external_body]
pub(crate) fn file_name(path: &str) -> (r: Option<String>)
    ensures
        opt_text(r) == file_name_of(path@),
{
    std::path::Path::new(path).file_name().and_then(|s| s.to_str()).map(|s| s.to_string())
}

/// Wraps `Path::parent`; the result is named [`parent_of`].
#[verifier::external_body]
pub(crate) fn parent(path: &str) -> (r: Option<String>)
    ensures
        opt_text(r) == parent_of(path@),
{
    std::path::Path::new(path).parent().and_then(|s| s.to_str()).map(|s| s.to_string())
}

/// Wraps `Path::extension`; the result is named [`extension_of`].
#[verifier::external_body]
pub(crate) fn extension(path: &str) -> (r: Option<String>)
    ensures
        opt_text(r) == extension_of(path@),
{
    std::path::Path::new(path).extension().and_then(|s| s.to_str()).map(|s| s.to_string())
}

/// The module that a file stands for: its file stem, or `unknown` where the
/// path has none.
pub open spec fn module_name(path: Seq<char>) -> Seq<char> {
    match file_stem_of(path) {
        Some(stem) => stem,
        None => "unknown"@,
    }
}

/// The name of the directory that directly holds a file, if the path shows one.
pub open spec fn folder_of(path: Seq<char>) -> Option<Seq<char>> {
    match parent_of(path) {
        Some(dir) => file_name_of(dir),
        None => None,
    }
}

/// The module name of a source path: `src/engine.rs` gives `engine`.
pub fn extract_module_name(path: &str) -> (r: String)
    ensures
        r@ == module_name(path@),
{
    match file_stem(path) {
        Some(stem) => stem,
        None => "unknown".to_string(),
    }
}

/// The name of the directory that directly holds the file.
pub fn parent_dir_name(path: &str) -> (r: Option<String>)
    ensures
        opt_text(r) == folder_of(path@),
{
    match parent(path) {
        Some(dir) => file_name(dir.as_str()),
        None => None,
    }
}

} // verus!

//! The decisions of file discovery: which files are sources, and which
//! paths a scan passes over. Walking the directories is left to the caller.

use crate::ir::opt_text;
use crate::paths::{extension, extension_of, file_name, file_name_of};
use crate::patterns::{glob_match, try_match};
use crate::text::{has_prefix, starts_with, str_eq, texts};
use vstd::prelude::*;

verus! {

/// What `std::path::Path::strip_prefix` gives for a path and a base: the
/// path below the base, or nothing where the path is not below it.
pub uninterp spec fn path_below(path: Seq<char>, base: Seq<char>) -> Option<Seq<char>>;

/// Wraps `Path::strip_prefix`; the result is named [`path_below`].
#[verifier::external_body]
fn strip_base(path: &str, base: &str) -> (r: Option<String>)
    ensures
        opt_text(r) == path_below(path@, base@),
{
    std::path::Path::new(path).strip_prefix(base).ok().and_then(|p| p.to_str()).map(
        |p| p.to_string(),
    )
}

/// Whether a path has an extension that a driver reads as source.
pub open spec fn is_source(path: Seq<char>) -> bool {
    extension_of(path) == Some("rs"@) || extension_of(path) == Some("py"@)
}

/// Whether the last component of a path starts with a dot and is more than
/// a dot.
pub open spec fn hidden(path: Seq<char>) -> bool {
    match file_name_of(path) {
        Some(name) => has_prefix(name, "."@) && name != "."@,
        None => false,
    }
}

/// The path as the exclusion patterns see it: below the root where it lies
/// below the root, else as it is.
pub open spec fn seen_path(path: Seq<char>, root: Seq<char>) -> Seq<char> {
    match path_below(path, root) {
        Some(below) => below,
        None => path,
    }
}

/// Whether some pattern compiles and matches the path.
pub open spec fn excluded(path: Seq<char>, patterns: Seq<Seq<char>>) -> bool {
    exists|k: int| 0 <= k < patterns.len() && glob_match(#[trigger] patterns[k], path) == Some(true)
}

/// Whether a scan passes over a path: a hidden path, or one that an
/// exclusion pattern matches. A pattern that does not compile excludes
/// nothing.
pub open spec fn skipped(path: Seq<char>, patterns: Seq<Seq<char>>, root: Seq<char>) -> bool {
    hidden(path) || excluded(seen_path(path, root), patterns)
}

/// Tests whether a file is a source file by its extension.
pub fn is_supported_source_file(path: &str) -> (r: bool)
    ensures
        r == is_source(path@),
{
    match extension(path) {
        Some(e) => str_eq(e.as_str(), "rs") || str_eq(e.as_str(), "py"),
        None => false,
    }
}

/// Tests whether a path names a hidden file or directory.
pub fn is_hidden(path: &str) -> (r: bool)
    ensures
        r == hidden(path@),
{
    match file_name(path) {
        Some(name) => starts_with(name.as_str(), ".") && !str_eq(name.as_str(), "."),
        None => false,
    }
}

/// Tests whether a scan passes over a path.
pub fn should_skip(path: &str, exclude_patterns: &Vec<String>, root: &str) -> (r: bool)
    ensures
        r == skipped(path@, texts(exclude_patterns@), root@),
{
    if is_hidden(path) {
        return true;
    }
    let seen = match strip_base(path, root) {
        Some(below) => below,
        None => path.to_string(),
    };
    let mut k: usize = 0;
    while k < exclude_patterns.len()
        invariant
            k <= exclude_patterns.len(),
            seen@ == seen_path(path@, root@),
            forall|j: int|
                0 <= j < k ==> glob_match(#[trigger] texts(exclude_patterns@)[j], seen@) != Some(
                    true,
                ),
        decreases exclude_patterns.len() - k,
    {
        match try_match(exclude_patterns[k].as_str(), seen.as_str()) {
            Some(true) => {
                assert(glob_match(texts(exclude_patterns@)[k as int], seen@) == Some(true));
                return true;
            },
            _ => {},
        }
        k = k + 1;
    }
    false
}

} // verus!

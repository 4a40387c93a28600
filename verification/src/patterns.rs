//! Glob patterns over paths.

use crate::text::{contains, has_infix, has_prefix, starts_with};
use vstd::prelude::*;
use vstd::string::*;

verus! {

/// What compiling `pattern` with `glob::Pattern::new` and then testing `path`
/// with `Pattern::matches` gives: `None` where the pattern does not compile,
/// else whether the path matches.
pub uninterp spec fn glob_match(pattern: Seq<char>, path: Seq<char>) -> Option<bool>;

/// Compiles the pattern with `glob::Pattern::new` and, where that succeeds,
/// tests the path with `Pattern::matches`. The outcome is named
/// [`glob_match`]; an invalid pattern gives `None`.
#[verifier::external_body]
pub(crate) fn try_match(pattern: &str, path: &str) -> (r: Option<bool>)
    ensures
        r == glob_match(pattern@, path@),
{
    match glob::Pattern::new(pattern) {
        Ok(compiled) => Some(compiled.matches(path)),
        Err(_) => None,
    }
}

/// A pattern as it is tried the second time: one that holds `**` or starts
/// with `src/` stays as it is, any other is put under `src/`.
pub open spec fn normalized(pattern: Seq<char>) -> Seq<char> {
    if has_infix(pattern, "**"@) || has_prefix(pattern, "src/"@) {
        pattern
    } else {
        "src/"@ + pattern
    }
}

/// Whether a path matches a pattern, as written or normalized, given the
/// outcomes of the two glob matches.
pub open spec fn matched(as_written: Option<bool>, as_normalized: Option<bool>) -> bool {
    as_written == Some(true) || as_normalized == Some(true)
}

/// Whether a path matches a pattern, as written or normalized.
pub open spec fn pattern_matches(path: Seq<char>, pattern: Seq<char>) -> bool {
    matched(glob_match(pattern, path), glob_match(normalized(pattern), path))
}

/// Puts a relative pattern under `src/`.
pub fn normalize_pattern(pattern: &str) -> (r: String)
    ensures
        r@ == normalized(pattern@),
{
    if contains(pattern, "**") || starts_with(pattern, "src/") {
        pattern.to_string()
    } else {
        let mut out = "src/".to_string();
        out.append(pattern);
        out
    }
}

/// Decides a match from the outcomes of the two glob matches: one `true`
/// is enough, and a pattern that did not compile counts as no match.
pub fn decide_match(as_written: Option<bool>, as_normalized: Option<bool>) -> (r: bool)
    ensures
        r == matched(as_written, as_normalized),
{
    match as_written {
        Some(true) => true,
        _ => match as_normalized {
            Some(true) => true,
            _ => false,
        },
    }
}

/// Tests a path against a pattern, first as written, then normalized.
pub fn matches_pattern(path: &str, pattern: &str) -> (r: bool)
    ensures
        r == pattern_matches(path@, pattern@),
{
    let as_written = try_match(pattern, path);
    let normal = normalize_pattern(pattern);
    let as_normalized = try_match(normal.as_str(), path);
    decide_match(as_written, as_normalized)
}

} // verus!

//! Matching of paths against a set of ignore patterns.
use vstd::prelude::*;
use vstd::string::*;
use crate::error::{Error, ErrorView};

verus! {

/// What matching `path` against the glob expressions `patterns` gives:
/// `None` where one of the expressions does not build, else whether any of
/// them matches the path.
pub uninterp spec fn glob_any_match(patterns: Seq<Seq<char>>, path: Seq<char>) -> Option<bool>;

/// Builds the combinator `wax::any` of the expressions and asks it, with
/// `wax::Program::is_match`, whether the path matches. The result is that of
/// the two calls on these texts; a build error becomes `None`. The match is
/// a logical one on the text of the path and reads no file system.
#[verifier::external_body]
fn match_any(patterns: &Vec<String>, path: &str) -> (r: Option<bool>)
    ensures
        r == glob_any_match(patterns.deep_view(), path@),
{
    let expressions: Vec<&str> = patterns.iter().map(String::as_str).collect();
    match wax::any(expressions) {
        Ok(any) => Some(wax::Program::is_match(&any, path)),
        Err(_) => None,
    }
}

/// The error for a set of ignore patterns that does not build.
pub open spec fn invalid_patterns() -> ErrorView {
    ErrorView::Unexpected("invalid ignore pattern"@)
}

/// Whether a path is ignored under a set of ignore patterns; an error where
/// a pattern is not a glob expression.
pub fn is_ignored(patterns: &Vec<String>, path: &str) -> (r: Result<bool, Error>)
    ensures
        match glob_any_match(patterns.deep_view(), path@) {
            Some(m) => r.is_ok() && r.unwrap() == m,
            None => r.is_err() && r.unwrap_err()@ == invalid_patterns(),
        },
{
    match match_any(patterns, path) {
        Some(m) => Ok(m),
        None => Err(Error::Unexpected(String::from_str("invalid ignore pattern"))),
    }
}

} // verus!

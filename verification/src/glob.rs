//! The trusted boundary to the `globset` crate: compiling one alias pattern
//! into a matcher, and asking whether a candidate string matches it.
//!
//! Patterns are compiled with separators literal, so that `*` matches only a
//! run of non-separator characters while `**` matches across separators.
//! What a backslash means in a pattern or a candidate follows globset's
//! convention for the compilation target: an escape character wherever it is
//! not the path separator.

use vstd::prelude::*;

verus! {

#[verifier::external_type_specification]
#[verifier::external_body]
pub struct ExGlobSet(globset::GlobSet);

/// Whether globset accepts `pattern`: it parses as a syntactically valid
/// glob and compiles within globset's internal limits. Both steps are
/// deterministic, so this is a function of the pattern string alone.
pub uninterp spec fn glob_pattern_usable(pattern: Seq<char>) -> bool;

/// The pattern string that a compiled matcher was built from.
pub uninterp spec fn matcher_pattern(m: globset::GlobSet) -> Seq<char>;

/// Whether `candidate` matches the glob `pattern`, compiled with separators
/// literal. A compiled matcher is derived from its pattern string alone, so
/// the outcome depends on the two strings alone.
pub uninterp spec fn glob_matches(pattern: Seq<char>, candidate: Seq<char>) -> bool;

/// Relies on globset::GlobBuilder::build and globset::GlobSetBuilder::build:
/// parsing and compilation succeed exactly when globset accepts the pattern,
/// and neither step panics — the set-building path reports a pattern it
/// cannot compile as an error instead. The matcher is a glob set holding
/// this one glob, so asking it answers for the pattern itself.
#[verifier::external_body]
pub(crate) fn compile_pattern(pattern: &str) -> (r: Option<globset::GlobSet>)
    ensures
        r is Some <==> glob_pattern_usable(pattern@),
        r matches Some(m) ==> matcher_pattern(m) == pattern@,
{
    let glob = match globset::GlobBuilder::new(pattern).literal_separator(true).build() {
        Ok(g) => g,
        Err(_) => return None,
    };
    match globset::GlobSetBuilder::new().add(glob).build() {
        Ok(s) => Some(s),
        Err(_) => None,
    }
}

/// Relies on globset::GlobSet::is_match: whether the candidate matches the
/// compiled pattern, a function of the pattern and the candidate alone, with
/// no panic path.
#[verifier::external_body]
pub(crate) fn matcher_is_match(m: &globset::GlobSet, candidate: &str) -> (r: bool)
    ensures
        r == glob_matches(matcher_pattern(*m), candidate@),
{
    m.is_match(candidate)
}

} // verus!

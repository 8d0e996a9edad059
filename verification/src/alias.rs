//! Alias-pattern matching: compiles the configured glob patterns once per
//! compilation unit and answers whether a specifier matches any of them.

use vstd::prelude::*;
use crate::glob::{compile_pattern, glob_matches, glob_pattern_usable, matcher_is_match,
    matcher_pattern};
use crate::rules::matches_any;

verus! {

/// A configured alias string is one that globset does not accept: not a
/// syntactically valid glob, or beyond what globset can compile. Fatal to
/// the compilation unit: it must not be ignored or treated as "no aliases".
#[derive(Debug)]
pub struct PatternError {
    /// The position of the offending pattern in the configured sequence.
    pub index: usize,
    /// The offending pattern string itself.
    pub pattern: String,
}

/// Owns one compiled glob matcher per configured alias pattern, in
/// configuration order; answers "does this string match any configured
/// alias?". Stateless after construction.
#[derive(Debug)]
pub struct AliasMatcher {
    matchers: Vec<globset::GlobSet>,
}

impl AliasMatcher {
    /// The configured alias patterns, in configuration order.
    pub closed spec fn view(&self) -> Seq<Seq<char>> {
        self.matchers@.map_values(|m: globset::GlobSet| matcher_pattern(m))
    }

    /// Compiles every pattern, in order. Succeeds exactly when globset
    /// accepts all patterns; otherwise reports the first one it refuses.
    pub fn compile(patterns: &Vec<String>) -> (r: Result<AliasMatcher, PatternError>)
        ensures
            r matches Ok(m) ==> m@ == patterns.deep_view() && (forall|i: int|
                0 <= i < patterns@.len() ==> glob_pattern_usable(#[trigger] patterns.deep_view()[i])),
            r matches Err(e) ==> 0 <= e.index < patterns@.len() && e.pattern@
                == patterns.deep_view()[e.index as int] && !glob_pattern_usable(
                patterns.deep_view()[e.index as int],
            ) && (forall|i: int|
                0 <= i < e.index ==> glob_pattern_usable(#[trigger] patterns.deep_view()[i])),
    {
        let mut matchers: Vec<globset::GlobSet> = Vec::new();
        let mut i: usize = 0;
        while i < patterns.len()
            invariant
                0 <= i <= patterns@.len(),
                matchers@.len() == i,
                forall|j: int|
                    0 <= j < i ==> matcher_pattern(#[trigger] matchers@[j])
                        == patterns.deep_view()[j],
                forall|j: int| 0 <= j < i ==> glob_pattern_usable(#[trigger] patterns.deep_view()[j]),
            decreases patterns@.len() - i,
        {
            match compile_pattern(patterns[i].as_str()) {
                Some(m) => {
                    matchers.push(m);
                },
                None => {
                    return Err(PatternError { index: i, pattern: patterns[i].clone() });
                },
            }
            i += 1;
        }
        let m = AliasMatcher { matchers };
        proof {
            assert(m@ =~= patterns.deep_view());
        }
        Ok(m)
    }

    /// True exactly when the candidate matches at least one configured
    /// pattern; with zero patterns, always false.
    pub fn matches(&self, candidate: &str) -> (r: bool)
        ensures
            r == matches_any(self@, candidate@),
    {
        let mut i: usize = 0;
        while i < self.matchers.len()
            invariant
                0 <= i <= self.matchers@.len(),
                forall|j: int| 0 <= j < i ==> !glob_matches(#[trigger] self@[j], candidate@),
            decreases self.matchers@.len() - i,
        {
            if matcher_is_match(&self.matchers[i], candidate) {
                proof {
                    assert(glob_matches(self@[i as int], candidate@));
                }
                return true;
            }
            i += 1;
        }
        false
    }
}

} // verus!

//! The executable specifier rewrite, verified against the model in `rules`.

use vstd::prelude::*;
use vstd::string::{StrSliceExecFns, StringExecFns};
use crate::alias::AliasMatcher;
use crate::rules::{ends_with_js, ends_with_ts, is_relative, js_ext, marker_len, normalized,
    rewritten, stage_relative};

verus! {

/// True exactly when `s` ends in the literal `.ts`.
fn ends_with_ts_exec(s: &str) -> (r: bool)
    ensures
        r == ends_with_ts(s@),
{
    let n = s.unicode_len();
    n >= 3 && s.get_char(n - 3) == '.' && s.get_char(n - 2) == 't' && s.get_char(n - 1) == 's'
}

/// True exactly when `s` ends in the literal `.js`.
fn ends_with_js_exec(s: &str) -> (r: bool)
    ensures
        r == ends_with_js(s@),
{
    let n = s.unicode_len();
    n >= 3 && s.get_char(n - 3) == '.' && s.get_char(n - 2) == 'j' && s.get_char(n - 1) == 's'
}

/// True exactly when `s` begins with the relative-path marker `./` or `../`.
fn is_relative_exec(s: &str) -> (r: bool)
    ensures
        r == is_relative(s@),
{
    let n = s.unicode_len();
    if n >= 2 && s.get_char(0) == '.' && s.get_char(1) == '/' {
        true
    } else {
        n >= 3 && s.get_char(0) == '.' && s.get_char(1) == '.' && s.get_char(2) == '/'
    }
}

/// The length of the relative-path marker of a relative specifier.
fn marker_len_exec(s: &str) -> (r: usize)
    requires
        is_relative(s@),
    ensures
        r as int == marker_len(s@),
{
    if s.get_char(1) == '/' {
        2
    } else {
        3
    }
}

/// One pass of the two-step extension normalization on an executable string.
fn normalized_exec(s: &str, min_len: usize) -> (r: String)
    ensures
        r@ == normalized(s@, min_len as int),
{
    let n = s.unicode_len();
    let mut t: String;
    if n >= min_len && ends_with_ts_exec(s) {
        t = String::from_str(s.substring_char(0, n - 3));
        t.append(".js");
        proof {
            reveal_strlit(".js");
            assert(".js"@ =~= js_ext());
            assert(t@ =~= s@.take(s@.len() - 3) + js_ext());
        }
    } else {
        t = String::from_str(s);
    }
    if !ends_with_js_exec(t.as_str()) {
        t.append(".js");
        proof {
            reveal_strlit(".js");
            assert(".js"@ =~= js_ext());
        }
    }
    t
}

/// Rewrites module specifiers: classifies each specifier's shape and applies
/// the extension normalization that shape calls for, through one compiled
/// alias matcher shared by every specifier of a compilation unit.
#[derive(Debug)]
pub struct SpecifierRewriter {
    matcher: AliasMatcher,
}

impl SpecifierRewriter {
    /// The configured alias patterns, in configuration order.
    pub closed spec fn view(&self) -> Seq<Seq<char>> {
        self.matcher@
    }

    /// A rewriter over an already-compiled alias matcher.
    pub fn new(matcher: AliasMatcher) -> (r: SpecifierRewriter)
        ensures
            r@ == matcher@,
    {
        SpecifierRewriter { matcher }
    }

    /// Rewrites one specifier. Never fails: any input string produces the
    /// deterministic output that the two-stage rule prescribes.
    pub fn rewrite(&self, specifier: &str) -> (r: String)
        ensures
            r@ == rewritten(self@, specifier@),
    {
        let a: String = if is_relative_exec(specifier) {
            let ml = marker_len_exec(specifier);
            normalized_exec(specifier, ml + 4)
        } else {
            String::from_str(specifier)
        };
        proof {
            assert(a@ == stage_relative(specifier@));
        }
        if self.matcher.matches(a.as_str()) {
            normalized_exec(a.as_str(), 4)
        } else {
            a
        }
    }

    /// The per-statement entry for the host traversal engine: a statement
    /// without a source specifier is skipped — `None` comes back `None`, the
    /// statement stays as it is — and a present source is rewritten.
    pub fn rewrite_source(&self, specifier: Option<&str>) -> (r: Option<String>)
        ensures
            match specifier {
                Some(s) => r matches Some(t) && t@ == rewritten(self@, s@),
                None => r is None,
            },
    {
        match specifier {
            Some(s) => Some(self.rewrite(s)),
            None => None,
        }
    }
}

} // verus!

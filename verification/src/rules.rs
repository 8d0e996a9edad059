//! The specifier-rewrite rule as a mathematical model: classification of a
//! specifier's shape and the two-stage extension normalization applied to it.

use vstd::prelude::*;
use crate::glob::glob_matches;

verus! {

/// The target extension, `.js`: every normalized specifier ends in it.
pub open spec fn js_ext() -> Seq<char> {
    seq!['.', 'j', 's']
}

/// Whether the specifier begins with the relative-path marker `./` or `../`.
pub open spec fn is_relative(s: Seq<char>) -> bool {
    ||| (s.len() >= 2 && s[0] == '.' && s[1] == '/')
    ||| (s.len() >= 3 && s[0] == '.' && s[1] == '.' && s[2] == '/')
}

/// The length of the relative-path marker that `s` begins with; meaningful
/// only when `is_relative(s)` holds.
pub open spec fn marker_len(s: Seq<char>) -> int {
    if s.len() >= 2 && s[0] == '.' && s[1] == '/' {
        2
    } else {
        3
    }
}

/// Whether the specifier ends in the literal extension `.ts`.
pub open spec fn ends_with_ts(s: Seq<char>) -> bool {
    s.len() >= 3 && s[s.len() - 3] == '.' && s[s.len() - 2] == 't' && s[s.len() - 1] == 's'
}

/// Whether the specifier ends in the literal extension `.js`.
pub open spec fn ends_with_js(s: Seq<char>) -> bool {
    s.len() >= 3 && s[s.len() - 3] == '.' && s[s.len() - 2] == 'j' && s[s.len() - 1] == 's'
}

/// One pass of the two-step extension normalization: first, if the specifier
/// is at least `min_len` long and ends in `.ts`, replace that trailing `.ts`
/// by `.js`; second, if the result still does not end in `.js`, append `.js`.
/// `min_len` enforces that at least one character precedes the replaced
/// extension (beyond the relative-path marker, where one is required).
pub open spec fn normalized(s: Seq<char>, min_len: int) -> Seq<char> {
    let t = if s.len() >= min_len && ends_with_ts(s) {
        s.take(s.len() - 3) + js_ext()
    } else {
        s
    };
    if ends_with_js(t) {
        t
    } else {
        t + js_ext()
    }
}

/// Stage one of the rewrite: relative specifiers are normalized, with the
/// `.ts` replacement demanding a marker, at least one character, then `.ts`;
/// anything else passes through unchanged.
pub open spec fn stage_relative(s: Seq<char>) -> Seq<char> {
    if is_relative(s) {
        normalized(s, marker_len(s) + 4)
    } else {
        s
    }
}

/// Whether `candidate` matches at least one of the configured glob patterns.
pub open spec fn matches_any(patterns: Seq<Seq<char>>, candidate: Seq<char>) -> bool {
    exists|i: int| 0 <= i < patterns.len() && glob_matches(patterns[i], candidate)
}

/// The whole rewrite: stage one normalizes relative specifiers; stage two
/// re-normalizes the intermediate string if it matches a configured alias
/// pattern, this time demanding only one character before a trailing `.ts`.
pub open spec fn rewritten(patterns: Seq<Seq<char>>, s: Seq<char>) -> Seq<char> {
    let a = stage_relative(s);
    if matches_any(patterns, a) {
        normalized(a, 4)
    } else {
        a
    }
}

/// A string with `.js` freshly appended ends in `.js`.
proof fn lemma_append_js_ends_js(t: Seq<char>)
    ensures
        ends_with_js(t + js_ext()),
{
    let u = t + js_ext();
    assert(u[u.len() - 3] == '.');
    assert(u[u.len() - 2] == 'j');
    assert(u[u.len() - 1] == 's');
}

/// A string ending in `.js` does not end in `.ts`.
proof fn lemma_js_not_ts(s: Seq<char>)
    requires
        ends_with_js(s),
    ensures
        !ends_with_ts(s),
{
}

/// Whatever its input, a normalization pass yields a string ending in `.js`.
pub proof fn lemma_normalized_ends_js(s: Seq<char>, min_len: int)
    ensures
        ends_with_js(normalized(s, min_len)),
{
    if s.len() >= min_len && ends_with_ts(s) {
        lemma_append_js_ends_js(s.take(s.len() - 3));
    } else if !ends_with_js(s) {
        lemma_append_js_ends_js(s);
    }
}

/// A normalization pass leaves a string that already ends in `.js` alone.
proof fn lemma_normalized_js_identity(s: Seq<char>, min_len: int)
    requires
        ends_with_js(s),
    ensures
        normalized(s, min_len) == s,
{
    lemma_js_not_ts(s);
}

/// A specifier already ending in `.js` is never changed, whatever the alias
/// configuration.
pub proof fn lemma_rewritten_js_unchanged(patterns: Seq<Seq<char>>, s: Seq<char>)
    requires
        ends_with_js(s),
    ensures
        rewritten(patterns, s) == s,
{
    lemma_normalized_js_identity(s, marker_len(s) + 4);
    lemma_normalized_js_identity(s, 4);
}

/// The rewrite is idempotent: applying it to its own output changes nothing.
pub proof fn lemma_rewritten_idempotent(patterns: Seq<Seq<char>>, s: Seq<char>)
    ensures
        rewritten(patterns, rewritten(patterns, s)) == rewritten(patterns, s),
{
    let a = stage_relative(s);
    if matches_any(patterns, a) {
        lemma_normalized_ends_js(a, 4);
        lemma_rewritten_js_unchanged(patterns, rewritten(patterns, s));
    } else if is_relative(s) {
        lemma_normalized_ends_js(s, marker_len(s) + 4);
        lemma_rewritten_js_unchanged(patterns, rewritten(patterns, s));
    }
}

/// A relative specifier ending in neither `.ts` nor `.js` gets `.js`
/// appended, whatever the alias configuration.
pub proof fn lemma_relative_no_extension(patterns: Seq<Seq<char>>, s: Seq<char>)
    requires
        is_relative(s),
        !ends_with_ts(s),
        !ends_with_js(s),
    ensures
        rewritten(patterns, s) == s + js_ext(),
{
    lemma_append_js_ends_js(s);
    lemma_normalized_js_identity(s + js_ext(), 4);
}

/// A relative specifier ending in `.ts`, with at least one character between
/// the relative-path marker and the extension, has only that trailing `.ts`
/// replaced by `.js`: everything before it is kept verbatim.
pub proof fn lemma_relative_ts(patterns: Seq<Seq<char>>, s: Seq<char>)
    requires
        is_relative(s),
        ends_with_ts(s),
        s.len() >= marker_len(s) + 4,
    ensures
        rewritten(patterns, s) == s.take(s.len() - 3) + js_ext(),
{
    let a = s.take(s.len() - 3) + js_ext();
    lemma_append_js_ends_js(s.take(s.len() - 3));
    lemma_normalized_js_identity(a, 4);
}

/// A bare specifier — neither relative nor matching a configured alias — is
/// returned unchanged.
pub proof fn lemma_bare_unchanged(patterns: Seq<Seq<char>>, s: Seq<char>)
    requires
        !is_relative(s),
        !matches_any(patterns, s),
    ensures
        rewritten(patterns, s) == s,
{
}

/// With no alias patterns configured the alias stage never triggers: the
/// rewrite is exactly the relative stage.
pub proof fn lemma_no_aliases(s: Seq<char>)
    ensures
        rewritten(Seq::empty(), s) == stage_relative(s),
{
}

} // verus!

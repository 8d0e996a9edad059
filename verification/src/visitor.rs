//! Integration glue for the host traversal engine: holds the alias
//! configuration of one compilation unit and builds the shared rewriter.

use vstd::prelude::*;
use crate::alias::{AliasMatcher, PatternError};
use crate::glob::glob_pattern_usable;
use crate::rewriter::SpecifierRewriter;

verus! {

/// The configured alias patterns as a sequence of strings: an absent
/// configuration means no patterns.
pub open spec fn aliases_view(aliases: Option<Vec<String>>) -> Seq<Seq<char>> {
    match aliases {
        Some(v) => v.deep_view(),
        None => Seq::<Seq<char>>::empty(),
    }
}

/// Carries the alias configuration through a compilation unit. The host
/// engine constructs one, installs the configuration once, and rewrites each
/// discovered specifier through the rewriter built from it.
pub struct TransformVisitor {
    aliases: Option<Vec<String>>,
}

impl TransformVisitor {
    /// The configured alias patterns, in configuration order.
    pub closed spec fn view(&self) -> Seq<Seq<char>> {
        aliases_view(self.aliases)
    }

    /// A visitor with no aliases configured.
    pub fn new() -> (r: TransformVisitor)
        ensures
            r@ == Seq::<Seq<char>>::empty(),
    {
        TransformVisitor { aliases: None }
    }

    /// Installs the alias configuration of the compilation unit.
    pub fn set_config(&mut self, aliases: Option<Vec<String>>)
        ensures
            final(self)@ == aliases_view(aliases),
    {
        self.aliases = aliases;
    }

    /// Compiles the configured aliases into the rewriter shared by every
    /// specifier of the unit. Succeeds exactly when globset accepts every
    /// configured pattern; otherwise reports the first one it refuses.
    pub fn rewriter(&self) -> (r: Result<SpecifierRewriter, PatternError>)
        ensures
            (r is Ok) <==> (forall|i: int|
                0 <= i < self@.len() ==> glob_pattern_usable(#[trigger] self@[i])),
            r matches Ok(rw) ==> rw@ == self@,
            r matches Err(e) ==> 0 <= e.index < self@.len() && e.pattern@ == self@[
                e.index as int
            ] && !glob_pattern_usable(self@[e.index as int]),
    {
        match &self.aliases {
            Some(v) => {
                match AliasMatcher::compile(v) {
                    Ok(m) => Ok(SpecifierRewriter::new(m)),
                    Err(e) => Err(e),
                }
            },
            None => {
                let no_patterns: Vec<String> = Vec::new();
                match AliasMatcher::compile(&no_patterns) {
                    Ok(m) => {
                        proof {
                            assert(m@ =~= self@);
                        }
                        Ok(SpecifierRewriter::new(m))
                    },
                    Err(e) => Err(e),
                }
            },
        }
    }
}

} // verus!

//! Rewrites module specifiers of import and export statements so that they
//! resolve after compilation: relative specifiers get their extension
//! normalized to `.js`, and specifiers matching a configured set of glob
//! alias patterns receive the same treatment.

mod alias;
mod glob;
mod rewriter;
pub mod rules;
mod visitor;

pub use alias::AliasMatcher;
pub use alias::PatternError;
pub use glob::glob_matches;
pub use glob::glob_pattern_usable;
pub use rewriter::SpecifierRewriter;
pub use visitor::TransformVisitor;
pub use visitor::aliases_view;

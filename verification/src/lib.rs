//! Detector for the `map(..)` / `unwrap_or(..)` call-chain idiom on an
//! optional value, together with the rewrite-safety analysis that decides
//! whether the chain may be merged into a single `map_or` (or `and_then`)
//! call without changing which bindings are moved, and the synthesis of the
//! resulting multi-part text edit.

pub mod collect;
pub mod laws;
pub mod rewrite;
pub mod scan;
pub mod span;
pub mod tree;

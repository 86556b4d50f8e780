//! The expression tree that the analysis runs over.
//!
//! Each node carries a kind, a source span and its children; a node owns
//! its children, so a tree is finite and acyclic by construction.  A
//! path-reference node carries the binding identity it resolves to, if it
//! resolves to a local binding at all: the host's name-resolution query is
//! folded into the tree, so that the analysis never compares textual names
//! (shadowing makes two same-named bindings distinct identities).

use vstd::prelude::*;

use crate::span::Span;

verus! {

/// The identity of one local-variable introduction site.  Two
/// path-references carry equal identities iff they resolve to the same
/// introduction.
pub type BindingId = u32;

/// The kind of an expression node: a closed set of variants, matched
/// exhaustively by the traversals.  Only `PathRef` is ever inspected by
/// the analysis; the remaining kinds exist so that a whole function body
/// can be represented faithfully.
#[derive(Clone, Copy, PartialEq, Eq, Structural, Debug)]
pub enum ExprKind {
    /// A literal token.
    Literal,
    /// A path-reference; `target` holds the identity of the local binding
    /// it resolves to, or `None` for a non-local path (a function, a
    /// constant, a global).
    PathRef { target: Option<BindingId> },
    /// A pattern-binding introduction site for the given identity.
    PatBinding { id: BindingId },
    /// A call (function or method).
    Call,
    /// A closure.
    Closure,
    /// A block or any other structural node.
    Block,
}

/// One node of the expression tree.
#[derive(Debug)]
pub struct Expr {
    /// What the node is.
    pub kind: ExprKind,
    /// Where its text stands in the source.
    pub span: Span,
    /// Its sub-expressions, in source order.
    pub children: Vec<Expr>,
}

/// Whether node `n` occurs in the tree rooted at `e` (the root included).
pub open spec fn in_tree(n: Expr, e: Expr) -> bool
    decreases e,
{
    n == e || in_forest(n, e.children@)
}

/// Whether node `n` occurs in one of the trees of `s`.
pub open spec fn in_forest(n: Expr, s: Seq<Expr>) -> bool
    decreases s,
{
    exists|i: int| 0 <= i < s.len() && in_tree(n, #[trigger] s[i])
}

} // verus!

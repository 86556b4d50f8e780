//! The conflict scanner: does the enclosing body reference, strictly
//! before a target span, any binding out of a given set?
//!
//! The scan covers the whole enclosing body, not only the region between
//! the two call sites: the rewrite changes relative evaluation order with
//! respect to every earlier point, so a reference anywhere before the
//! fallback argument is hazardous.  The span order is a syntactic
//! over-approximation of "executes before" — sound, not complete — so
//! the scanner errs toward reporting a conflict.  The walk short-circuits
//! on the first match: once found, the verdict is committed.

use vstd::prelude::*;

use crate::collect::kind_ref;
use crate::span::{span_precedes, Span};
use crate::tree::{in_forest, in_tree, BindingId, Expr, ExprKind};

verus! {

/// Whether the single node `e` is itself a hazardous reference: a
/// path-reference, resolved to a binding in `ids`, whose span starts
/// strictly before `target`.
pub open spec fn node_conflicts(e: Expr, ids: Set<BindingId>, target: Span) -> bool {
    span_precedes(e.span, target) && (match kind_ref(e.kind) {
        Some(id) => ids.contains(id),
        None => false,
    })
}

/// Whether any node of the tree `e` is a hazardous reference.
pub open spec fn has_conflict(e: Expr, ids: Set<BindingId>, target: Span) -> bool
    decreases e,
{
    node_conflicts(e, ids, target) || forest_conflict(e.children@, ids, target)
}

/// Whether any node of the trees of `s` is a hazardous reference.
pub open spec fn forest_conflict(s: Seq<Expr>, ids: Set<BindingId>, target: Span) -> bool
    decreases s,
{
    if s.len() == 0 {
        false
    } else {
        forest_conflict(s.drop_last(), ids, target) || has_conflict(s.last(), ids, target)
    }
}

/// A forest has a conflict iff one of its trees has one.
pub proof fn lemma_forest_conflict_iff(s: Seq<Expr>, ids: Set<BindingId>, target: Span)
    ensures
        forest_conflict(s, ids, target) <==> (exists|i: int|
            0 <= i < s.len() && has_conflict(#[trigger] s[i], ids, target)),
    decreases s,
{
    if s.len() > 0 {
        lemma_forest_conflict_iff(s.drop_last(), ids, target);
        if forest_conflict(s, ids, target) {
            if forest_conflict(s.drop_last(), ids, target) {
                let i = choose|i: int|
                    0 <= i < s.drop_last().len() && has_conflict(
                        #[trigger] s.drop_last()[i],
                        ids,
                        target,
                    );
                assert(s.drop_last()[i] == s[i]);
                assert(has_conflict(s[i], ids, target));
            } else {
                assert(s.last() == s[s.len() - 1]);
                assert(has_conflict(s[s.len() - 1], ids, target));
            }
        }
        if exists|i: int| 0 <= i < s.len() && has_conflict(#[trigger] s[i], ids, target) {
            let i = choose|i: int| 0 <= i < s.len() && has_conflict(#[trigger] s[i], ids, target);
            if i < s.len() - 1 {
                assert(s.drop_last()[i] == s[i]);
                assert(has_conflict(s.drop_last()[i], ids, target));
            } else {
                assert(s.last() == s[i]);
            }
        }
    }
}

/// A tree has a conflict iff it holds a witness node that is itself a
/// hazardous reference.  This ties the scanner's recursive definition to
/// the quantified statement the safety argument is made of.
pub proof fn lemma_has_conflict_iff_witness(e: Expr, ids: Set<BindingId>, target: Span)
    ensures
        has_conflict(e, ids, target) <==> (exists|n: Expr|
            in_tree(n, e) && #[trigger] node_conflicts(n, ids, target)),
    decreases e,
{
    lemma_forest_conflict_iff(e.children@, ids, target);
    if has_conflict(e, ids, target) {
        if node_conflicts(e, ids, target) {
            assert(in_tree(e, e) && node_conflicts(e, ids, target));
        } else {
            let i = choose|i: int|
                0 <= i < e.children@.len() && has_conflict(#[trigger] e.children@[i], ids, target);
            lemma_has_conflict_iff_witness(e.children@[i], ids, target);
            let n = choose|n: Expr|
                in_tree(n, e.children@[i]) && #[trigger] node_conflicts(n, ids, target);
            assert(in_forest(n, e.children@));
            assert(in_tree(n, e) && node_conflicts(n, ids, target));
        }
    }
    if exists|n: Expr| in_tree(n, e) && #[trigger] node_conflicts(n, ids, target) {
        let n = choose|n: Expr| in_tree(n, e) && #[trigger] node_conflicts(n, ids, target);
        if n == e {
        } else {
            let i = choose|i: int| 0 <= i < e.children@.len() && in_tree(n, #[trigger] e.children@[i]);
            lemma_has_conflict_iff_witness(e.children@[i], ids, target);
            assert(has_conflict(e.children@[i], ids, target));
        }
    }
}

/// Decides whether the identity `id` occurs in `ids`.
fn contains_id(ids: &Vec<BindingId>, id: BindingId) -> (r: bool)
    ensures
        r == ids@.to_set().contains(id),
{
    let mut i: usize = 0;
    while i < ids.len()
        invariant
            i <= ids@.len(),
            forall|j: int| 0 <= j < i ==> ids@[j] != id,
        decreases ids@.len() - i,
    {
        if ids[i] == id {
            return true;
        }
        i += 1;
    }
    false
}

/// Walks the body `e` depth-first, in source order, and reports whether
/// any node strictly before `target` references a binding out of `ids`.
/// The first match commits the verdict and stops the traversal.
pub fn scan_conflict(e: &Expr, ids: &Vec<BindingId>, target: Span) -> (found: bool)
    ensures
        found == has_conflict(*e, ids@.to_set(), target),
    decreases *e,
{
    let self_hit = match e.kind {
        ExprKind::PathRef { target: Some(id) } => e.span.precedes(&target) && contains_id(ids, id),
        _ => false,
    };
    if self_hit {
        return true;
    }
    let mut i: usize = 0;
    while i < e.children.len()
        invariant
            i <= e.children@.len(),
            !node_conflicts(*e, ids@.to_set(), target),
            forall|j: int| 0 <= j < i ==> !has_conflict(#[trigger] e.children@[j], ids@.to_set(), target),
        decreases e.children@.len() - i,
    {
        if scan_conflict(&e.children[i], ids, target) {
            proof {
                lemma_forest_conflict_iff(e.children@, ids@.to_set(), target);
            }
            return true;
        }
        i += 1;
    }
    proof {
        lemma_forest_conflict_iff(e.children@, ids@.to_set(), target);
    }
    false
}

} // verus!

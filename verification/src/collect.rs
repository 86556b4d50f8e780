//! The binding collector: the set of local-binding identities referenced
//! anywhere inside a sub-tree.
//!
//! The collector must be exhaustive — a move hazard can be buried
//! arbitrarily deep inside nested closures and blocks — and it works in
//! set semantics: visiting the same identity twice changes nothing.
//! Missing an identity here could let an unsafe rewrite through, so the
//! executable walk is proved to return exactly the references that the
//! tree holds.

use vstd::prelude::*;
use vstd::seq_lib::lemma_seq_contains_after_push;

use crate::tree::{in_forest, in_tree, BindingId, Expr, ExprKind};

verus! {

/// The binding identity a node kind references: `Some(id)` exactly for a
/// path-reference resolved to the local binding `id`.
pub open spec fn kind_ref(k: ExprKind) -> Option<BindingId> {
    match k {
        ExprKind::PathRef { target } => target,
        _ => None,
    }
}

/// The identities referenced by the node itself, its children aside.
pub open spec fn own_refs(e: Expr) -> Set<BindingId> {
    match kind_ref(e.kind) {
        Some(id) => Set::empty().insert(id),
        None => Set::empty(),
    }
}

/// The set of binding identities referenced anywhere in the tree `e`,
/// the root included.
pub open spec fn refs_of(e: Expr) -> Set<BindingId>
    decreases e,
{
    own_refs(e).union(refs_of_forest(e.children@))
}

/// The set of binding identities referenced anywhere in the trees of `s`.
pub open spec fn refs_of_forest(s: Seq<Expr>) -> Set<BindingId>
    decreases s,
{
    if s.len() == 0 {
        Set::<BindingId>::empty()
    } else {
        refs_of_forest(s.drop_last()).union(refs_of(s.last()))
    }
}

/// An identity is referenced in a forest iff it is referenced in one of
/// its trees.
pub proof fn lemma_refs_of_forest_iff(s: Seq<Expr>, id: BindingId)
    ensures
        refs_of_forest(s).contains(id) <==> (exists|i: int|
            0 <= i < s.len() && refs_of(#[trigger] s[i]).contains(id)),
    decreases s,
{
    if s.len() > 0 {
        lemma_refs_of_forest_iff(s.drop_last(), id);
        if refs_of_forest(s).contains(id) {
            if refs_of_forest(s.drop_last()).contains(id) {
                let i = choose|i: int|
                    0 <= i < s.drop_last().len() && refs_of(#[trigger] s.drop_last()[i]).contains(
                        id,
                    );
                assert(s.drop_last()[i] == s[i]);
                assert(refs_of(s[i]).contains(id));
            } else {
                assert(s.last() == s[s.len() - 1]);
                assert(refs_of(s[s.len() - 1]).contains(id));
            }
        }
        if exists|i: int| 0 <= i < s.len() && refs_of(#[trigger] s[i]).contains(id) {
            let i = choose|i: int| 0 <= i < s.len() && refs_of(#[trigger] s[i]).contains(id);
            if i < s.len() - 1 {
                assert(s.drop_last()[i] == s[i]);
                assert(refs_of(s.drop_last()[i]).contains(id));
            } else {
                assert(s.last() == s[i]);
            }
        }
    }
}

/// An identity is in `refs_of(e)` iff some node of the tree is a
/// path-reference to it: the collector's set is exactly the set of
/// witnesses the tree holds.
pub proof fn lemma_refs_of_iff_witness(e: Expr, id: BindingId)
    ensures
        refs_of(e).contains(id) <==> (exists|n: Expr|
            in_tree(n, e) && #[trigger] kind_ref(n.kind) == Some(id)),
    decreases e,
{
    lemma_refs_of_forest_iff(e.children@, id);
    if refs_of(e).contains(id) {
        if own_refs(e).contains(id) {
            assert(in_tree(e, e) && kind_ref(e.kind) == Some(id));
        } else {
            let i = choose|i: int|
                0 <= i < e.children@.len() && refs_of(#[trigger] e.children@[i]).contains(id);
            lemma_refs_of_iff_witness(e.children@[i], id);
            let n = choose|n: Expr|
                in_tree(n, e.children@[i]) && #[trigger] kind_ref(n.kind) == Some(id);
            assert(in_forest(n, e.children@));
            assert(in_tree(n, e) && kind_ref(n.kind) == Some(id));
        }
    }
    if exists|n: Expr| in_tree(n, e) && #[trigger] kind_ref(n.kind) == Some(id) {
        let n = choose|n: Expr| in_tree(n, e) && #[trigger] kind_ref(n.kind) == Some(id);
        if n == e {
            assert(own_refs(e).contains(id));
        } else {
            let i = choose|i: int| 0 <= i < e.children@.len() && in_tree(n, #[trigger] e.children@[i]);
            lemma_refs_of_iff_witness(e.children@[i], id);
            assert(refs_of(e.children@[i]).contains(id));
            assert(refs_of_forest(e.children@).contains(id));
        }
    }
}

/// Pushes every binding identity referenced in `e` onto `acc`.
fn collect_into(e: &Expr, acc: &mut Vec<BindingId>)
    ensures
        forall|id: BindingId| #[trigger]
            final(acc)@.contains(id) <==> (old(acc)@.contains(id) || refs_of(*e).contains(id)),
    decreases *e,
{
    match e.kind {
        ExprKind::PathRef { target: Some(id) } => { acc.push(id) },
        _ => {},
    }
    let ghost entered = acc@;
    let mut i: usize = 0;
    while i < e.children.len()
        invariant
            i <= e.children@.len(),
            forall|id: BindingId| #[trigger]
                acc@.contains(id) <==> (entered.contains(id) || (exists|j: int|
                    0 <= j < i && refs_of(#[trigger] e.children@[j]).contains(id))),
        decreases e.children@.len() - i,
    {
        collect_into(&e.children[i], acc);
        i += 1;
    }
    proof {
        assert forall|id: BindingId| #[trigger] acc@.contains(id) implies (old(acc)@.contains(id)
            || refs_of(*e).contains(id)) by {
            lemma_refs_of_forest_iff(e.children@, id);
        }
        assert forall|id: BindingId| old(acc)@.contains(id) || refs_of(*e).contains(
            id,
        ) implies #[trigger] acc@.contains(id) by {
            broadcast use lemma_seq_contains_after_push;

            lemma_refs_of_forest_iff(e.children@, id);
        }
    }
}

/// Walks the whole tree `e` and returns the identities of all local
/// bindings referenced anywhere inside it — exactly `refs_of(*e)`, in
/// set semantics.
pub fn collect_bindings(e: &Expr) -> (ids: Vec<BindingId>)
    ensures
        ids@.to_set() == refs_of(*e),
{
    let mut ids: Vec<BindingId> = Vec::new();
    collect_into(e, &mut ids);
    proof {
        assert(ids@.to_set() =~= refs_of(*e));
    }
    ids
}

} // verus!

//! The guarantees the detector gives, stated and proved once and for
//! all over the rewrite-safety decision and the synthesized suggestion.

use vstd::prelude::*;

use crate::collect::{kind_ref, lemma_refs_of_iff_witness, refs_of};
use crate::rewrite::{rewrite_allowed, snippet_text, suggestion_model, Candidate, Suggestion};
use crate::scan::{has_conflict, lemma_has_conflict_iff_witness, node_conflicts};
use crate::span::span_precedes;
use crate::tree::{in_tree, BindingId, Expr};

verus! {

/// A move-only fallback argument whose bindings are also referenced
/// earlier never yields a suggestion: if any node `m` of the fallback
/// argument references the binding `id` — however deeply it is buried —
/// and any node `n` of the enclosing body references `id` strictly
/// before the fallback argument's span, the rewrite is refused.
pub proof fn lemma_move_conflict_declines(c: Candidate, body: Expr, m: Expr, n: Expr, id: BindingId)
    requires
        !c.fallback_is_copy,
        in_tree(m, c.fallback_arg),
        kind_ref(m.kind) == Some(id),
        in_tree(n, body),
        kind_ref(n.kind) == Some(id),
        span_precedes(n.span, c.fallback_arg.span),
    ensures
        !rewrite_allowed(c, body),
{
    lemma_refs_of_iff_witness(c.fallback_arg, id);
    let ids = refs_of(c.fallback_arg);
    assert(node_conflicts(n, ids, c.fallback_arg.span));
    lemma_has_conflict_iff_witness(body, ids, c.fallback_arg.span);
    assert(has_conflict(body, ids, c.fallback_arg.span));
}

/// For a trivially duplicable fallback argument the conflict scan is
/// irrelevant: the decision is the same whatever the enclosing body
/// holds, and comes down to the type gate and the context check alone.
pub proof fn lemma_duplicable_ignores_conflicts(c: Candidate, body1: Expr, body2: Expr)
    requires
        c.fallback_is_copy,
    ensures
        rewrite_allowed(c, body1) == rewrite_allowed(c, body2),
        rewrite_allowed(c, body1) == (c.recv_is_option && c.fallback_arg.span.ctxt
            == c.map_span.ctxt),
{
}

/// A candidate whose fallback argument and transform call carry
/// differing expansion-context tags is always refused, whatever the
/// types and whatever the enclosing body.
pub proof fn lemma_context_mismatch_declines(c: Candidate, body: Expr)
    requires
        c.fallback_arg.span.ctxt != c.map_span.ctxt,
    ensures
        !rewrite_allowed(c, body),
{
}

/// The detector is deterministic: two runs over the same unchanged tree
/// reach the same decision and, when they emit, byte-identical text.
/// `check` pins its result to `rewrite_allowed` and `suggestion_model`,
/// so any two results of one candidate agree.
pub proof fn lemma_idempotent(
    c: Candidate,
    body: Expr,
    snippet: Option<String>,
    r1: Option<Suggestion>,
    r2: Option<Suggestion>,
)
    requires
        r1 is Some <==> rewrite_allowed(c, body),
        r1 matches Some(s1) ==> s1@ == suggestion_model(c, snippet),
        r2 is Some <==> rewrite_allowed(c, body),
        r2 matches Some(s2) ==> s2@ == suggestion_model(c, snippet),
    ensures
        (r1 is Some) == (r2 is Some),
        (r1 is Some && r2 is Some) ==> r1->Some_0@ == r2->Some_0@,
{
}

/// A fallback argument whose source text is exactly the empty-optional
/// literal selects the chain-then form: the transform call is renamed
/// to `and_then`, only two edit parts are emitted, and the diagnostic
/// names `and_then(<f>)`.
pub proof fn lemma_nothing_literal_selects_chain_then(c: Candidate, snippet: Option<String>)
    requires
        snippet_text(snippet) == "None"@,
    ensures
        suggestion_model(c, snippet).edits.len() == 2,
        suggestion_model(c, snippet).edits[0].text == "and_then"@,
        suggestion_model(c, snippet).message == "called `map(<f>).unwrap_or("@ + "None"@
            + ")` on an `Option` value. This can be done more directly by calling `"@
            + "and_then(<f>)"@ + "` instead"@,
{
}

/// Any other fallback text selects the merge form: the transform call
/// is renamed to `map_or`, the fallback text and a separator are
/// inserted before the transform argument, and the diagnostic labels
/// the argument with the generic placeholder.
pub proof fn lemma_other_text_selects_merge(c: Candidate, snippet: Option<String>)
    requires
        snippet_text(snippet) != "None"@,
    ensures
        suggestion_model(c, snippet).edits.len() == 3,
        suggestion_model(c, snippet).edits[0].text == "map_or"@,
        suggestion_model(c, snippet).edits[2].text == snippet_text(snippet) + ", "@,
        suggestion_model(c, snippet).message == "called `map(<f>).unwrap_or("@ + "<a>"@
            + ")` on an `Option` value. This can be done more directly by calling `"@
            + "map_or(<a>, <f>)"@ + "` instead"@,
{
}

} // verus!

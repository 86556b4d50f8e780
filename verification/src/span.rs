//! Source spans: an ordered start/end byte range tagged with the
//! macro-expansion context it came from, and the strict total order on
//! spans that the conflict scan uses to approximate "executes before".

use vstd::prelude::*;

verus! {

/// A source span: a half-open byte range `[lo, hi)` in the analyzed unit,
/// tagged with the expansion context that produced the text.  Context `0`
/// conventionally stands for literal source text; any other tag names one
/// macro expansion.  Two spans whose `ctxt` tags differ come from different
/// expansions, and no rewrite may straddle them.
#[derive(Clone, Copy, PartialEq, Eq, Structural, Debug)]
pub struct Span {
    /// Start position.
    pub lo: u32,
    /// End position.
    pub hi: u32,
    /// Expansion-context tag.
    pub ctxt: u32,
}

/// The strict total order on spans: lexicographic on (`lo`, `hi`, `ctxt`).
/// Its only use is the question "does span `a` start strictly before span
/// `b`", the syntactic stand-in for evaluation order.
pub open spec fn span_precedes(a: Span, b: Span) -> bool {
    a.lo < b.lo
        || (a.lo == b.lo && a.hi < b.hi)
        || (a.lo == b.lo && a.hi == b.hi && a.ctxt < b.ctxt)
}

impl Span {
    /// Decides the strict span order.
    pub fn precedes(&self, other: &Span) -> (r: bool)
        ensures
            r == span_precedes(*self, *other),
    {
        self.lo < other.lo
            || (self.lo == other.lo && self.hi < other.hi)
            || (self.lo == other.lo && self.hi == other.hi && self.ctxt < other.ctxt)
    }
}

/// `span_precedes` is irreflexive: no span starts strictly before itself.
pub proof fn lemma_span_order_irreflexive(a: Span)
    ensures
        !span_precedes(a, a),
{
}

/// `span_precedes` is transitive.
pub proof fn lemma_span_order_transitive(a: Span, b: Span, c: Span)
    requires
        span_precedes(a, b),
        span_precedes(b, c),
    ensures
        span_precedes(a, c),
{
}

/// `span_precedes` is total: two distinct spans are ordered one way or the
/// other, so any two nodes of the tree can be compared.
pub proof fn lemma_span_order_total(a: Span, b: Span)
    ensures
        a == b || span_precedes(a, b) || span_precedes(b, a),
{
}

} // verus!

//! The rewrite synthesizer and the detector pipeline.
//!
//! Given a matched `map(..)` / `unwrap_or(..)` candidate, the detector
//! first gates on the receiver being the optional type, then — for a
//! move-only fallback argument — collects the bindings that argument
//! references and scans the whole enclosing body for an earlier
//! reference to any of them, and finally refuses a rewrite that would
//! straddle two macro-expansion contexts.  Only when every gate passes
//! does it synthesize the multi-part edit: rename the transform call to
//! `map_or` (or to `and_then` when the fallback argument is literally
//! `None`), delete the trailing fallback call, and, in the general form,
//! insert the fallback text as a new first argument.

use vstd::prelude::*;
use vstd::string::StringExecFns;

use crate::collect::{collect_bindings, refs_of};
use crate::scan::{has_conflict, scan_conflict};
use crate::span::Span;
use crate::tree::Expr;

verus! {

/// How an emitted suggestion may be applied.
#[derive(Clone, Copy, PartialEq, Eq, Structural, Debug)]
pub enum Applicability {
    /// Every safety precondition was verified and the snippet text is
    /// faithful: the edit is safe for fully automated application.
    MachineApplicable,
    /// Snippet extraction could not guarantee text fidelity; the edit
    /// carries placeholder text and needs manual review.
    HasPlaceholders,
}

/// One part of a multi-part edit: replace the text at `span` with `text`.
/// A zero-width `span` makes it an insertion; empty `text` a deletion.
#[derive(Debug)]
pub struct TextEdit {
    /// The text range to replace.
    pub span: Span,
    /// The replacement text.
    pub text: String,
}

/// The mathematical model of a `TextEdit`.
pub struct TextEditModel {
    /// The text range to replace.
    pub span: Span,
    /// The replacement text.
    pub text: Seq<char>,
}

impl View for TextEdit {
    type V = TextEditModel;

    open spec fn view(&self) -> TextEditModel {
        TextEditModel { span: self.span, text: self.text@ }
    }
}

/// A suggestion emitted for one candidate: the diagnostic message and
/// the multi-part edit that performs the rewrite.
#[derive(Debug)]
pub struct Suggestion {
    /// The primary span of the diagnostic: the whole chain expression.
    pub span: Span,
    /// The human-readable diagnostic message.
    pub message: String,
    /// The label of the suggested edit.
    pub help: String,
    /// The parts of the rewrite, in emission order.
    pub edits: Vec<TextEdit>,
    /// Whether the edit may be applied without review.
    pub applicability: Applicability,
}

/// The mathematical model of a `Suggestion`.
pub struct SuggestionModel {
    /// The primary span of the diagnostic.
    pub span: Span,
    /// The diagnostic message.
    pub message: Seq<char>,
    /// The label of the suggested edit.
    pub help: Seq<char>,
    /// The parts of the rewrite.
    pub edits: Seq<TextEditModel>,
    /// Whether the edit may be applied without review.
    pub applicability: Applicability,
}

impl View for Suggestion {
    type V = SuggestionModel;

    open spec fn view(&self) -> SuggestionModel {
        SuggestionModel {
            span: self.span,
            message: self.message@,
            help: self.help@,
            edits: self.edits@.map_values(|e: TextEdit| e@),
            applicability: self.applicability,
        }
    }
}

/// A matched candidate call chain, as the host's structural matcher
/// hands it over: the relevant spans, the fallback argument's sub-tree,
/// and the two facts of the host's type oracle.
pub struct Candidate {
    /// The span of the whole chain expression.
    pub expr_span: Span,
    /// The span of the transform method name (the rename target).
    pub map_span: Span,
    /// The span of the transform call's argument (the insertion point).
    pub map_arg_span: Span,
    /// The span of the fallback call's receiver; the deletion starts at
    /// its end.
    pub unwrap_recv_span: Span,
    /// The fallback call's argument, as a sub-tree with its span.
    pub fallback_arg: Expr,
    /// Type oracle: the transform receiver has the two-variant optional
    /// type.
    pub recv_is_option: bool,
    /// Type oracle: the fallback argument's type is trivially
    /// duplicable, so no move hazard can exist.
    pub fallback_is_copy: bool,
}

/// The rewrite-safety decision: a suggestion is emitted iff the receiver
/// is the optional type; the fallback argument is trivially duplicable,
/// or no binding it references is also referenced strictly before it in
/// the enclosing body; and both call sites share one expansion context.
pub open spec fn rewrite_allowed(c: Candidate, body: Expr) -> bool {
    c.recv_is_option && (c.fallback_is_copy || !has_conflict(
        body,
        refs_of(c.fallback_arg),
        c.fallback_arg.span,
    )) && c.fallback_arg.span.ctxt == c.map_span.ctxt
}

/// The fallback argument's source text, with the placeholder `..`
/// standing in when the host's extractor could not produce faithful
/// text.
pub open spec fn snippet_text(snippet: Option<String>) -> Seq<char> {
    match snippet {
        Some(s) => s@,
        None => ".."@,
    }
}

/// The special case: the fallback argument's source text is exactly the
/// empty-optional literal, so the chain-then form replaces the generic
/// merge form and no argument text is duplicated.
pub open spec fn uses_chain_then(snippet: Option<String>) -> bool {
    snippet_text(snippet) == "None"@
}

/// The method name the transform call is renamed to.
pub open spec fn method_text(none_case: bool) -> Seq<char> {
    if none_case {
        "and_then"@
    } else {
        "map_or"@
    }
}

/// The schematic form of the suggested call, as shown in diagnostics.
pub open spec fn suggest_text(none_case: bool) -> Seq<char> {
    if none_case {
        "and_then(<f>)"@
    } else {
        "map_or(<a>, <f>)"@
    }
}

/// The label of the fallback argument in the diagnostic message: the
/// literal `None`, or the generic placeholder.
pub open spec fn arg_label(none_case: bool) -> Seq<char> {
    if none_case {
        "None"@
    } else {
        "<a>"@
    }
}

/// The diagnostic message.
pub open spec fn message_text(none_case: bool) -> Seq<char> {
    "called `map(<f>).unwrap_or("@ + arg_label(none_case)
        + ")` on an `Option` value. This can be done more directly by calling `"@ + suggest_text(
        none_case,
    ) + "` instead"@
}

/// The label of the suggested edit.
pub open spec fn help_text(none_case: bool) -> Seq<char> {
    "use `"@ + suggest_text(none_case) + "` instead"@
}

/// The rename part: the new method name at the transform call's span.
pub open spec fn rename_edit(c: Candidate, none_case: bool) -> TextEditModel {
    TextEditModel { span: c.map_span, text: method_text(none_case) }
}

/// The deletion part: empty text over the range from the end of the
/// fallback receiver to the end of the whole chain expression.
pub open spec fn delete_edit(c: Candidate) -> TextEditModel {
    TextEditModel {
        span: Span { lo: c.unwrap_recv_span.hi, hi: c.expr_span.hi, ctxt: c.expr_span.ctxt },
        text: Seq::<char>::empty(),
    }
}

/// The insertion part of the general form: the fallback argument's text
/// and a separator, placed immediately before the transform call's own
/// argument.
pub open spec fn insert_edit(c: Candidate, snippet: Option<String>) -> TextEditModel {
    TextEditModel {
        span: Span { lo: c.map_arg_span.lo, hi: c.map_arg_span.lo, ctxt: c.map_arg_span.ctxt },
        text: snippet_text(snippet) + ", "@,
    }
}

/// The full edit set of a suggestion: two parts in the chain-then case,
/// three in the general case.
pub open spec fn edits_model(c: Candidate, snippet: Option<String>) -> Seq<TextEditModel> {
    if uses_chain_then(snippet) {
        seq![rename_edit(c, true), delete_edit(c)]
    } else {
        seq![rename_edit(c, false), delete_edit(c), insert_edit(c, snippet)]
    }
}

/// The whole suggestion a passing candidate yields, pinned down to the
/// byte: the decision and the emitted text depend on nothing but the
/// candidate and the extracted snippet.
pub open spec fn suggestion_model(c: Candidate, snippet: Option<String>) -> SuggestionModel {
    let none_case = uses_chain_then(snippet);
    SuggestionModel {
        span: c.expr_span,
        message: message_text(none_case),
        help: help_text(none_case),
        edits: edits_model(c, snippet),
        applicability: if snippet is Some {
            Applicability::MachineApplicable
        } else {
            Applicability::HasPlaceholders
        },
    }
}

/// Runs the whole pipeline on one matched candidate: gate on the
/// receiver's type, collect the bindings the fallback argument
/// references, scan the enclosing `body` for an earlier reference to
/// any of them, check the expansion contexts, and synthesize the edit.
/// `snippet` is the host extractor's text for the fallback argument's
/// span, or `None` when no faithful text could be produced.
pub fn check(cand: &Candidate, body: &Expr, snippet: &Option<String>) -> (r: Option<Suggestion>)
    ensures
        r is Some <==> rewrite_allowed(*cand, *body),
        r matches Some(s) ==> s@ == suggestion_model(*cand, *snippet),
{
    if !cand.recv_is_option {
        return None;
    }
    if !cand.fallback_is_copy {
        let ids = collect_bindings(&cand.fallback_arg);
        if scan_conflict(body, &ids, cand.fallback_arg.span) {
            return None;
        }
    }
    if cand.fallback_arg.span.ctxt != cand.map_span.ctxt {
        return None;
    }
    let snip: String;
    let machine: bool;
    match snippet {
        Some(s) => {
            snip = s.clone();
            machine = true;
        },
        None => {
            snip = String::from_str("..");
            machine = false;
        },
    }
    let none_case = snip == String::from_str("None");
    proof {
        reveal_strlit("..");
        reveal_strlit("None");
        assert(".."@.len() == 2);
        assert("None"@.len() == 4);
    }
    let mut message = String::from_str("called `map(<f>).unwrap_or(");
    message.append(if none_case {
        "None"
    } else {
        "<a>"
    });
    message.append(")` on an `Option` value. This can be done more directly by calling `");
    message.append(if none_case {
        "and_then(<f>)"
    } else {
        "map_or(<a>, <f>)"
    });
    message.append("` instead");
    let mut help = String::from_str("use `");
    help.append(if none_case {
        "and_then(<f>)"
    } else {
        "map_or(<a>, <f>)"
    });
    help.append("` instead");
    let mut edits: Vec<TextEdit> = Vec::new();
    edits.push(
        TextEdit {
            span: cand.map_span,
            text: String::from_str(
                if none_case {
                    "and_then"
                } else {
                    "map_or"
                },
            ),
        },
    );
    edits.push(
        TextEdit {
            span: Span {
                lo: cand.unwrap_recv_span.hi,
                hi: cand.expr_span.hi,
                ctxt: cand.expr_span.ctxt,
            },
            text: String::new(),
        },
    );
    if !none_case {
        let mut insert_text = snip;
        insert_text.append(", ");
        edits.push(
            TextEdit {
                span: Span {
                    lo: cand.map_arg_span.lo,
                    hi: cand.map_arg_span.lo,
                    ctxt: cand.map_arg_span.ctxt,
                },
                text: insert_text,
            },
        );
    }
    let sug = Suggestion {
        span: cand.expr_span,
        message,
        help,
        edits,
        applicability: if machine {
            Applicability::MachineApplicable
        } else {
            Applicability::HasPlaceholders
        },
    };
    proof {
        assert(sug@.edits =~= edits_model(*cand, *snippet));
    }
    Some(sug)
}

} // verus!

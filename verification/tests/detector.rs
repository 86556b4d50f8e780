use map_unwrap_or::rewrite::{check, Applicability, Candidate, Suggestion, TextEdit};
use map_unwrap_or::span::Span;
use map_unwrap_or::tree::{Expr, ExprKind};

fn sp(lo: u32, hi: u32) -> Span {
    Span { lo, hi, ctxt: 0 }
}

fn node(kind: ExprKind, span: Span, children: Vec<Expr>) -> Expr {
    Expr { kind, span, children }
}

fn leaf(kind: ExprKind, span: Span) -> Expr {
    node(kind, span, Vec::new())
}

fn local(id: u32, lo: u32, hi: u32) -> Expr {
    leaf(ExprKind::PathRef { target: Some(id) }, sp(lo, hi))
}

fn apply_edits(src: &str, edits: &[TextEdit]) -> String {
    let mut parts: Vec<(usize, usize, String)> =
        edits.iter().map(|e| (e.span.lo as usize, e.span.hi as usize, e.text.clone())).collect();
    parts.sort_by(|a, b| b.0.cmp(&a.0));
    let mut out = src.to_string();
    for (lo, hi, text) in parts {
        out.replace_range(lo..hi, &text);
    }
    out
}

fn same_suggestion(a: &Suggestion, b: &Suggestion) {
    assert_eq!(a.span, b.span);
    assert_eq!(a.message, b.message);
    assert_eq!(a.help, b.help);
    assert_eq!(a.applicability, b.applicability);
    assert_eq!(a.edits.len(), b.edits.len());
    for (ea, eb) in a.edits.iter().zip(b.edits.iter()) {
        assert_eq!(ea.span, eb.span);
        assert_eq!(ea.text, eb.text);
    }
}

// opt.map(|s| s.to_vec()).unwrap_or(x)
// 0123456789...        offsets: opt 0..3, map 4..7, closure 8..22,
// map call 0..23, unwrap_or 24..33, x 34..35, whole chain 0..36.
fn move_only_candidate() -> (Candidate, Expr) {
    let to_vec_call = node(ExprKind::Call, sp(12, 22), vec![local(3, 12, 13)]);
    let closure = node(ExprKind::Closure, sp(8, 22), vec![to_vec_call]);
    let map_call = node(ExprKind::Call, sp(0, 23), vec![local(1, 0, 3), closure]);
    let body = node(ExprKind::Call, sp(0, 36), vec![map_call, local(2, 34, 35)]);
    let cand = Candidate {
        expr_span: sp(0, 36),
        map_span: sp(4, 7),
        map_arg_span: sp(8, 22),
        unwrap_recv_span: sp(0, 23),
        fallback_arg: local(2, 34, 35),
        recv_is_option: true,
        fallback_is_copy: false,
    };
    (cand, body)
}

#[test]
fn move_only_without_earlier_use_emits_map_or() {
    let (cand, body) = move_only_candidate();
    let r = check(&cand, &body, &Some(String::from("x"))).expect("should emit");
    assert_eq!(r.span, sp(0, 36));
    assert_eq!(
        r.message,
        "called `map(<f>).unwrap_or(<a>)` on an `Option` value. \
         This can be done more directly by calling `map_or(<a>, <f>)` instead"
    );
    assert_eq!(r.help, "use `map_or(<a>, <f>)` instead");
    assert_eq!(r.applicability, Applicability::MachineApplicable);
    assert_eq!(r.edits.len(), 3);
    assert_eq!(r.edits[0].span, sp(4, 7));
    assert_eq!(r.edits[0].text, "map_or");
    assert_eq!(r.edits[1].span, sp(23, 36));
    assert_eq!(r.edits[1].text, "");
    assert_eq!(r.edits[2].span, sp(8, 8));
    assert_eq!(r.edits[2].text, "x, ");
    let rewritten = apply_edits("opt.map(|s| s.to_vec()).unwrap_or(x)", &r.edits);
    assert_eq!(rewritten, "opt.map_or(x, |s| s.to_vec())");
}

// x.get(0..1).map(|s| s.to_vec()).unwrap_or(x)
// x 0..1, get call 0..11, map 12..15, closure 16..30, map call 0..31,
// unwrap_or 32..41, x 42..43, whole chain 0..44.
fn conflicting_candidate() -> (Candidate, Expr) {
    let get_call = node(ExprKind::Call, sp(0, 11), vec![local(1, 0, 1)]);
    let to_vec_call = node(ExprKind::Call, sp(20, 30), vec![local(3, 20, 21)]);
    let closure = node(ExprKind::Closure, sp(16, 30), vec![to_vec_call]);
    let map_call = node(ExprKind::Call, sp(0, 31), vec![get_call, closure]);
    let body = node(ExprKind::Call, sp(0, 44), vec![map_call, local(1, 42, 43)]);
    let cand = Candidate {
        expr_span: sp(0, 44),
        map_span: sp(12, 15),
        map_arg_span: sp(16, 30),
        unwrap_recv_span: sp(0, 31),
        fallback_arg: local(1, 42, 43),
        recv_is_option: true,
        fallback_is_copy: false,
    };
    (cand, body)
}

#[test]
fn move_only_with_earlier_receiver_use_declines() {
    // The fallback argument moves `x`, and the chain receiver already
    // references `x` before the fallback span: no suggestion.
    let (cand, body) = conflicting_candidate();
    assert!(check(&cand, &body, &Some(String::from("x"))).is_none());
}

#[test]
fn earlier_use_anywhere_in_body_declines() {
    // The hazardous reference sits outside the chain expression, at the
    // very start of the enclosing body: the scan still covers it.
    let (cand, chain) = move_only_candidate();
    let body = node(ExprKind::Block, sp(0, 40), vec![local(2, 0, 1), chain]);
    assert!(check(&cand, &body, &Some(String::from("x"))).is_none());
}

#[test]
fn duplicable_type_ignores_any_conflict() {
    // Same shape as the conflicting candidate, but the oracle marks the
    // fallback argument trivially duplicable: the scan result no longer
    // matters and the rewrite is emitted.
    let (mut cand, body) = conflicting_candidate();
    cand.fallback_is_copy = true;
    let r = check(&cand, &body, &Some(String::from("x"))).expect("should emit");
    assert_eq!(r.edits[0].text, "map_or");
}

#[test]
fn non_optional_receiver_declines() {
    // The type oracle refuses the receiver (the fallback argument is not
    // a plain default for the transform's result): out of the idiom.
    let (mut cand, body) = move_only_candidate();
    cand.recv_is_option = false;
    assert!(check(&cand, &body, &Some(String::from("None"))).is_none());
}

#[test]
fn differing_expansion_contexts_decline() {
    let (mut cand, body) = move_only_candidate();
    cand.map_span = Span { lo: 4, hi: 7, ctxt: 1 };
    assert!(check(&cand, &body, &Some(String::from("x"))).is_none());
}

#[test]
fn equal_non_literal_contexts_are_accepted() {
    // Both call sites inside the same macro expansion: the rewrite can
    // be placed consistently, so it is emitted.
    let (mut cand, body) = duplicable_candidate();
    cand.map_span = Span { lo: 4, hi: 7, ctxt: 4 };
    cand.fallback_arg.span = Span { lo: 29, hi: 30, ctxt: 4 };
    assert!(check(&cand, &body, &Some(String::from("0"))).is_some());
}

// opt.map(|v| v + 1).unwrap_or(0)
// opt 0..3, map 4..7, closure 8..17, map call 0..18, unwrap_or 19..28,
// 0 at 29..30, whole chain 0..31.
fn duplicable_candidate() -> (Candidate, Expr) {
    let plus = node(ExprKind::Call, sp(12, 17), vec![local(4, 12, 13), leaf(ExprKind::Literal, sp(16, 17))]);
    let closure = node(ExprKind::Closure, sp(8, 17), vec![plus]);
    let map_call = node(ExprKind::Call, sp(0, 18), vec![local(1, 0, 3), closure]);
    let body = node(ExprKind::Call, sp(0, 31), vec![map_call, leaf(ExprKind::Literal, sp(29, 30))]);
    let cand = Candidate {
        expr_span: sp(0, 31),
        map_span: sp(4, 7),
        map_arg_span: sp(8, 17),
        unwrap_recv_span: sp(0, 18),
        fallback_arg: leaf(ExprKind::Literal, sp(29, 30)),
        recv_is_option: true,
        fallback_is_copy: true,
    };
    (cand, body)
}

#[test]
fn duplicable_literal_always_emits() {
    let (cand, body) = duplicable_candidate();
    let r = check(&cand, &body, &Some(String::from("0"))).expect("should emit");
    assert_eq!(r.edits.len(), 3);
    assert_eq!(r.edits[0].text, "map_or");
    assert_eq!(r.edits[2].text, "0, ");
    let rewritten = apply_edits("opt.map(|v| v + 1).unwrap_or(0)", &r.edits);
    assert_eq!(rewritten, "opt.map_or(0, |v| v + 1)");
}

// opt.map(f).unwrap_or(None)
// opt 0..3, map 4..7, f 8..9, map call 0..10, unwrap_or 11..20,
// None 21..25, whole chain 0..26.
fn nothing_literal_candidate() -> (Candidate, Expr) {
    let map_call = node(
        ExprKind::Call,
        sp(0, 10),
        vec![local(1, 0, 3), leaf(ExprKind::PathRef { target: None }, sp(8, 9))],
    );
    let body = node(
        ExprKind::Call,
        sp(0, 26),
        vec![map_call, leaf(ExprKind::PathRef { target: None }, sp(21, 25))],
    );
    let cand = Candidate {
        expr_span: sp(0, 26),
        map_span: sp(4, 7),
        map_arg_span: sp(8, 9),
        unwrap_recv_span: sp(0, 10),
        fallback_arg: leaf(ExprKind::PathRef { target: None }, sp(21, 25)),
        recv_is_option: true,
        fallback_is_copy: false,
    };
    (cand, body)
}

#[test]
fn nothing_literal_selects_and_then() {
    let (cand, body) = nothing_literal_candidate();
    let r = check(&cand, &body, &Some(String::from("None"))).expect("should emit");
    assert_eq!(
        r.message,
        "called `map(<f>).unwrap_or(None)` on an `Option` value. \
         This can be done more directly by calling `and_then(<f>)` instead"
    );
    assert_eq!(r.help, "use `and_then(<f>)` instead");
    assert_eq!(r.edits.len(), 2);
    assert_eq!(r.edits[0].span, sp(4, 7));
    assert_eq!(r.edits[0].text, "and_then");
    assert_eq!(r.edits[1].span, sp(10, 26));
    assert_eq!(r.edits[1].text, "");
    let rewritten = apply_edits("opt.map(f).unwrap_or(None)", &r.edits);
    assert_eq!(rewritten, "opt.and_then(f)");
}

#[test]
fn other_text_selects_merge_with_placeholder_label() {
    let (cand, body) = nothing_literal_candidate();
    let r = check(&cand, &body, &Some(String::from("fallback()"))).expect("should emit");
    assert_eq!(
        r.message,
        "called `map(<f>).unwrap_or(<a>)` on an `Option` value. \
         This can be done more directly by calling `map_or(<a>, <f>)` instead"
    );
    assert_eq!(r.edits.len(), 3);
    assert_eq!(r.edits[0].text, "map_or");
    assert_eq!(r.edits[2].text, "fallback(), ");
}

#[test]
fn missing_snippet_downgrades_applicability() {
    let (cand, body) = move_only_candidate();
    let r = check(&cand, &body, &None).expect("should emit");
    assert_eq!(r.applicability, Applicability::HasPlaceholders);
    assert_eq!(r.edits.len(), 3);
    assert_eq!(r.edits[2].text, ".., ");
}

#[test]
fn detector_is_idempotent_on_unchanged_tree() {
    let (cand1, body1) = move_only_candidate();
    let (cand2, body2) = move_only_candidate();
    let r1 = check(&cand1, &body1, &Some(String::from("x"))).expect("should emit");
    let r2 = check(&cand2, &body2, &Some(String::from("x"))).expect("should emit");
    same_suggestion(&r1, &r2);
}

#[test]
fn detector_is_idempotent_when_declining() {
    let (cand1, body1) = conflicting_candidate();
    let (cand2, body2) = conflicting_candidate();
    assert!(check(&cand1, &body1, &Some(String::from("x"))).is_none());
    assert!(check(&cand2, &body2, &Some(String::from("x"))).is_none());
}

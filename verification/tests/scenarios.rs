use empty_vec_call::ast::{Constant, Expr, ExprKind, Span};
use empty_vec_call::check::{check_expr, HostQueries};
use empty_vec_call::diagnostic::Applicability;

fn span(lo: u32, hi: u32) -> Span {
    Span { lo, hi }
}

fn call_expr() -> Expr {
    Expr { span: span(4, 17), kind: ExprKind::Call }
}

fn int_lit(v: u128) -> Expr {
    Expr { span: span(19, 20), kind: ExprKind::IntLit(v) }
}

fn vec_repeat(elem: Expr, len: Expr) -> Expr {
    Expr { span: span(0, 21), kind: ExprKind::VecRepeat(Box::new(elem), Box::new(len)) }
}

fn array_repeat(elem: Expr, len: Expr) -> Expr {
    Expr { span: span(0, 21), kind: ExprKind::ArrayRepeat(Box::new(elem), Box::new(len)) }
}

fn host(len_constant: Option<Constant>, snippet: Option<&str>, ty: &str) -> HostQueries {
    HostQueries {
        len_constant,
        call_site: span(2, 23),
        elem_snippet: snippet.map(|s| s.to_string()),
        elem_ty: ty.to_string(),
    }
}

#[test]
fn array_repeat_of_call_zero_times_is_flagged() {
    let e = array_repeat(call_expr(), int_lit(0));
    let h = host(None, Some("side_effect()"), "usize");
    let d = check_expr(&e, &h).expect("a diagnostic");
    assert_eq!(d.message, "result of `side_effect()` is unused in empty array");
    assert_eq!(d.label, "consider using");
    assert_eq!(d.suggestion, "[] as [usize; 0]");
    assert_eq!(d.applicability, Applicability::MaybeIncorrect);
    assert_eq!(d.span, span(0, 21));
}

#[test]
fn vec_repeat_of_call_zero_times_is_flagged() {
    let e = vec_repeat(call_expr(), int_lit(0));
    let h = host(Some(Constant::Int(0)), Some("side_effect()"), "usize");
    let d = check_expr(&e, &h).expect("a diagnostic");
    assert_eq!(d.message, "result of `side_effect()` is unused in empty vec");
    assert_eq!(d.label, "consider using");
    assert_eq!(d.suggestion, "vec![]");
    assert_eq!(d.applicability, Applicability::MaybeIncorrect);
    assert_eq!(d.span, span(2, 23));
}

#[test]
fn array_repeat_of_plain_literal_is_not_flagged() {
    let e = array_repeat(int_lit(0), int_lit(0));
    let h = host(None, Some("0"), "i32");
    assert!(check_expr(&e, &h).is_none());
}

#[test]
fn vec_repeat_of_call_five_times_is_not_flagged() {
    let e = vec_repeat(call_expr(), int_lit(5));
    let h = host(Some(Constant::Int(5)), Some("side_effect()"), "usize");
    assert!(check_expr(&e, &h).is_none());
}

#[test]
fn vec_repeat_with_non_constant_length_is_not_flagged() {
    let len = Expr { span: span(19, 20), kind: ExprKind::Path };
    let e = vec_repeat(call_expr(), len);
    let h = host(None, Some("side_effect()"), "usize");
    assert!(check_expr(&e, &h).is_none());
}

#[test]
fn vec_repeat_of_plain_variable_is_not_flagged() {
    let elem = Expr { span: span(4, 5), kind: ExprKind::Path };
    let e = vec_repeat(elem, int_lit(0));
    let h = host(Some(Constant::Int(0)), Some("x"), "usize");
    assert!(check_expr(&e, &h).is_none());
}

#[test]
fn vec_repeat_with_non_integer_constant_length_is_not_flagged() {
    let len = Expr { span: span(19, 20), kind: ExprKind::Path };
    let e = vec_repeat(call_expr(), len);
    let h = host(Some(Constant::Other), Some("side_effect()"), "usize");
    assert!(check_expr(&e, &h).is_none());
}

#[test]
fn array_repeat_with_non_literal_length_is_not_flagged() {
    // The native form's check is stricter by design: a constant that merely
    // evaluates to zero, without being a direct integer literal, is skipped.
    let len = Expr { span: span(19, 20), kind: ExprKind::Path };
    let e = array_repeat(call_expr(), len);
    let h = host(Some(Constant::Int(0)), Some("side_effect()"), "usize");
    assert!(check_expr(&e, &h).is_none());
}

#[test]
fn array_repeat_of_call_one_time_is_not_flagged() {
    let e = array_repeat(call_expr(), int_lit(1));
    let h = host(None, Some("side_effect()"), "usize");
    assert!(check_expr(&e, &h).is_none());
}

#[test]
fn missing_snippet_falls_back_to_placeholder() {
    let e = vec_repeat(call_expr(), int_lit(0));
    let h = host(Some(Constant::Int(0)), None, "usize");
    let d = check_expr(&e, &h).expect("a diagnostic");
    assert_eq!(d.message, "result of `elem` is unused in empty vec");
}

#[test]
fn array_suggestion_uses_inferred_element_type() {
    let e = array_repeat(call_expr(), int_lit(0));
    let h = host(None, Some("next_id()"), "Vec<String>");
    let d = check_expr(&e, &h).expect("a diagnostic");
    assert_eq!(d.suggestion, "[] as [Vec<String>; 0]");
}

#[test]
fn applied_vec_suggestion_is_not_flagged_again() {
    // `vec![]` parses to a node that is no repeat form at all.
    let fixed = Expr { span: span(0, 6), kind: ExprKind::Other };
    let h = host(None, None, "usize");
    assert!(check_expr(&fixed, &h).is_none());
}

#[test]
fn applied_array_suggestion_is_not_flagged_again() {
    // `[] as [usize; 0]` parses to a cast, which is no repeat form either.
    let fixed = Expr { span: span(0, 16), kind: ExprKind::Other };
    let h = host(Some(Constant::Int(0)), None, "usize");
    assert!(check_expr(&fixed, &h).is_none());
}

#[test]
fn plain_call_is_not_flagged() {
    let h = host(Some(Constant::Int(0)), Some("side_effect()"), "usize");
    assert!(check_expr(&call_expr(), &h).is_none());
}

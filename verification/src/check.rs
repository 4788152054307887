//! The rule itself: a linear pipeline over one expression node.
//!
//! The pattern matcher runs first and is purely structural; only on a
//! structural match does the length check run; only on a confirmed zero
//! length does the side-effect classifier run.  Every failure mode is
//! "no match": the rule never raises an error and never aborts the host's
//! traversal.
//!
//! The host's query interfaces — the constant evaluator, the expansion
//! span query, the snippet service and the type renderer — appear here as
//! the plain values of [`HostQueries`], fetched by the host for the node
//! under inspection.  For a fixed node and fixed answers the decision and
//! the emitted text are fully determined.

use vstd::prelude::*;
use crate::ast::{Constant, Expr, ExprKind, Span};
use crate::diagnostic::{
    constructor_diagnostic, is_constructor_diagnostic, is_native_diagnostic, native_diagnostic,
    Diagnostic,
};
use crate::matcher::{match_repeat, RepeatForm};

verus! {

/// The answers the rule needs from the host, fetched for one node.
pub struct HostQueries {
    /// The constant evaluator's answer for the constructor form's length
    /// sub-expression: a typed constant, or `None` when the expression
    /// could not be statically resolved.
    pub len_constant: Option<Constant>,
    /// The call site of the outermost expansion enclosing the node: where
    /// the constructor idiom itself was written in the source.
    pub call_site: Span,
    /// The source text under the element's span, or `None` when the
    /// snippet service cannot produce it.
    pub elem_snippet: Option<String>,
    /// The element's statically inferred type, as the host renders it.
    pub elem_ty: String,
}

/// Holds when the evaluator resolved the length to exactly the integer
/// zero.  Any other integer, any non-integer constant kind, and an
/// evaluation failure all fall outside it.
pub open spec fn resolved_zero(c: Option<Constant>) -> bool {
    c matches Some(Constant::Int(n)) && n == 0
}

/// Holds when the element is classified as possibly side-effecting: it is
/// a direct function or method invocation.  Other element kinds are
/// excluded by design, to keep the rule low-noise.
pub open spec fn is_call(e: Expr) -> bool {
    e.kind is Call
}

/// The native form's stricter length check: the length must be a direct
/// integer literal equal to zero, not merely a constant that evaluates to
/// zero.  The asymmetry with the constructor form is deliberate
/// conservatism against false positives on nontrivial constant
/// expressions in that position.
pub open spec fn is_zero_literal(e: Expr) -> bool {
    e.kind matches ExprKind::IntLit(n) && n == 0
}

/// Holds when the node is flagged as a constructor repeat: the shape
/// matches, the evaluator resolved its length to zero, and its element is
/// a call.
pub open spec fn constructor_match(e: Expr, len_constant: Option<Constant>) -> bool {
    &&& e.kind matches ExprKind::VecRepeat(elem, _)
    &&& resolved_zero(len_constant)
    &&& is_call(*elem)
}

/// Holds when the node is flagged as a native repeat: the shape matches,
/// its length is a direct integer-literal zero, and its element is a call.
pub open spec fn native_match(e: Expr) -> bool {
    &&& e.kind matches ExprKind::ArrayRepeat(elem, len)
    &&& is_zero_literal(*len)
    &&& is_call(*elem)
}

/// The length resolver's own responsibility: interpret the evaluator's
/// answer, treating only the exact integer zero as the trigger condition.
pub fn length_is_zero(c: &Option<Constant>) -> (b: bool)
    ensures
        b == resolved_zero(*c),
{
    match c {
        Some(Constant::Int(n)) => *n == 0,
        _ => false,
    }
}

/// The side-effect classifier: an element is possibly side-effecting iff
/// its own kind is a call expression.
pub fn element_is_call(e: &Expr) -> (b: bool)
    ensures
        b == is_call(*e),
{
    match &e.kind {
        ExprKind::Call => true,
        _ => false,
    }
}

/// The native form's length check: a direct integer literal equal to zero.
pub fn length_is_zero_literal(e: &Expr) -> (b: bool)
    ensures
        b == is_zero_literal(*e),
{
    match &e.kind {
        ExprKind::IntLit(n) => *n == 0,
        _ => false,
    }
}

/// Decide a constructor repeat whose element and length the matcher has
/// already extracted: flagged iff the evaluator resolved the length to
/// zero and the element is a call.
pub fn check_constructor_repeat(
    elem: &Expr,
    len_constant: &Option<Constant>,
    call_site: Span,
    elem_snippet: &Option<String>,
) -> (r: Option<Diagnostic>)
    ensures
        r is Some <==> resolved_zero(*len_constant) && is_call(*elem),
        r matches Some(d) ==> is_constructor_diagnostic(d, call_site, *elem_snippet),
{
    if length_is_zero(len_constant) && element_is_call(elem) {
        Some(constructor_diagnostic(call_site, elem_snippet))
    } else {
        None
    }
}

/// Decide a native repeat whose element and length the matcher has already
/// extracted: flagged iff the length is a direct integer-literal zero and
/// the element is a call.
pub fn check_native_repeat(
    elem: &Expr,
    len: &Expr,
    repeat_span: Span,
    elem_snippet: &Option<String>,
    elem_ty: &str,
) -> (r: Option<Diagnostic>)
    ensures
        r is Some <==> is_zero_literal(*len) && is_call(*elem),
        r matches Some(d) ==> is_native_diagnostic(d, repeat_span, *elem_snippet, elem_ty@),
{
    if length_is_zero_literal(len) && element_is_call(elem) {
        Some(native_diagnostic(repeat_span, elem_snippet, elem_ty))
    } else {
        None
    }
}

/// Inspect one expression node with the host's answers and produce its
/// diagnostic, if any.  A diagnostic comes back if and only if the node is
/// one of the two repeat forms, its length is statically zero (by the
/// evaluator for the constructor form, by a direct literal for the native
/// form), and its element is a call; the diagnostic's span, message,
/// label, suggestion and applicability are then fully determined.
pub fn check_expr(e: &Expr, host: &HostQueries) -> (r: Option<Diagnostic>)
    ensures
        match r {
            Some(d) => {
                &&& constructor_match(*e, host.len_constant) || native_match(*e)
                &&& constructor_match(*e, host.len_constant) ==> is_constructor_diagnostic(
                    d,
                    host.call_site,
                    host.elem_snippet,
                )
                &&& native_match(*e) ==> is_native_diagnostic(
                    d,
                    e.span,
                    host.elem_snippet,
                    host.elem_ty@,
                )
            },
            None => !constructor_match(*e, host.len_constant) && !native_match(*e),
        },
{
    match match_repeat(e) {
        Some(RepeatForm::Constructor { elem, .. }) => check_constructor_repeat(
            elem,
            &host.len_constant,
            host.call_site,
            &host.elem_snippet,
        ),
        Some(RepeatForm::Native { elem, len }) => check_native_repeat(
            elem,
            len,
            e.span,
            &host.elem_snippet,
            host.elem_ty.as_str(),
        ),
        None => None,
    }
}

} // verus!

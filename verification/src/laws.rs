//! The rule's general guarantees, stated and proved over the same spec
//! functions that the pipeline's contracts use.
//!
//! Together with the contract of [`crate::check::check_expr`] — a
//! diagnostic comes back if and only if `constructor_match` or
//! `native_match` holds, and its content is then fully determined — each
//! lemma here says when the rule does or does not fire.

use vstd::prelude::*;
use crate::ast::{Constant, Expr, ExprKind};
use crate::check::{constructor_match, is_call, is_zero_literal, native_match, resolved_zero};

verus! {

/// A constructor repeat of a call whose length the evaluator resolved to
/// zero is flagged, and as a constructor form only: the rule produces
/// exactly one diagnostic for it, the one that suggests the
/// empty-construction literal.
pub proof fn lemma_constructor_repeat_flagged(e: Expr, len_constant: Option<Constant>)
    requires
        e.kind matches ExprKind::VecRepeat(elem, _) && is_call(*elem),
        resolved_zero(len_constant),
    ensures
        constructor_match(e, len_constant),
        !native_match(e),
{
}

/// A native repeat of a call whose length is a direct integer-literal zero
/// is flagged, and as a native form only: the rule produces exactly one
/// diagnostic for it, the one that suggests the typed empty array literal.
pub proof fn lemma_native_repeat_flagged(e: Expr, len_constant: Option<Constant>)
    requires
        e.kind matches ExprKind::ArrayRepeat(elem, len) && is_call(*elem) && is_zero_literal(
            *len,
        ),
    ensures
        native_match(e),
        !constructor_match(e, len_constant),
{
}

/// A repeat expression of either form whose element is not a call is never
/// flagged, whatever its length and whatever the evaluator answered.
pub proof fn lemma_non_call_element_not_flagged(e: Expr, len_constant: Option<Constant>)
    requires
        e.kind matches ExprKind::VecRepeat(elem, _) ==> !is_call(*elem),
        e.kind matches ExprKind::ArrayRepeat(elem, _) ==> !is_call(*elem),
    ensures
        !constructor_match(e, len_constant),
        !native_match(e),
{
}

/// A repeat expression whose length is nonzero or could not be statically
/// resolved is never flagged, whatever its element's shape.  For the
/// constructor form that means the evaluator did not answer the integer
/// zero; for the native form, that the length is not a direct
/// integer-literal zero.
pub proof fn lemma_nonzero_length_not_flagged(e: Expr, len_constant: Option<Constant>)
    requires
        !resolved_zero(len_constant),
        e.kind matches ExprKind::ArrayRepeat(_, len) ==> !is_zero_literal(*len),
    ensures
        !constructor_match(e, len_constant),
        !native_match(e),
{
}

/// An expression that is not one of the two repeat forms is never flagged.
/// Both suggested replacements — the empty-construction literal and the
/// typed empty array literal — parse to such expressions, so a site where
/// the suggestion has been applied is not flagged again.
pub proof fn lemma_non_repeat_not_flagged(e: Expr, len_constant: Option<Constant>)
    requires
        !(e.kind is VecRepeat),
        !(e.kind is ArrayRepeat),
    ensures
        !constructor_match(e, len_constant),
        !native_match(e),
{
}

/// The two repeat forms are mutually exclusive: no expression can be
/// flagged under both at once, so no node ever yields two diagnostics.
pub proof fn lemma_forms_exclusive(e: Expr, len_constant: Option<Constant>)
    ensures
        !(constructor_match(e, len_constant) && native_match(e)),
{
}

} // verus!

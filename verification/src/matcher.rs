//! The pattern matcher: the first, purely structural stage of the pipeline.
//!
//! Given one expression node it decides whether the node is one of the two
//! recognized repeat forms and, if so, extracts the element and length
//! sub-expressions.  It runs on every visited expression, so it is a plain
//! match on the node's shape: no semantic queries, no side effects.

use vstd::prelude::*;
use crate::ast::{Expr, ExprKind};

verus! {

/// A recognized repeat form, with its element and length sub-expressions.
///
/// The two forms are distinguished only because their correct replacement
/// text differs: an empty growable sequence needs no annotation, while an
/// empty array literal needs an explicit element type.
pub enum RepeatForm<'a> {
    /// The constructor-repeat idiom.
    Constructor { elem: &'a Expr, len: &'a Expr },
    /// The native array-repeat literal.
    Native { elem: &'a Expr, len: &'a Expr },
}

/// Holds when the node is one of the two repeat forms.
pub open spec fn is_repeat(e: Expr) -> bool {
    e.kind is VecRepeat || e.kind is ArrayRepeat
}

/// Classify one expression node as a repeat form, extracting its element
/// and length sub-expressions, or report that no form matches.
pub fn match_repeat<'a>(e: &'a Expr) -> (r: Option<RepeatForm<'a>>)
    ensures
        match r {
            Some(RepeatForm::Constructor { elem, len }) => {
                &&& e.kind matches ExprKind::VecRepeat(be, bl)
                &&& *elem == *be
                &&& *len == *bl
            },
            Some(RepeatForm::Native { elem, len }) => {
                &&& e.kind matches ExprKind::ArrayRepeat(be, bl)
                &&& *elem == *be
                &&& *len == *bl
            },
            None => !is_repeat(*e),
        },
{
    match &e.kind {
        ExprKind::VecRepeat(elem, len) => Some(RepeatForm::Constructor { elem: &**elem, len: &**len }),
        ExprKind::ArrayRepeat(elem, len) => Some(RepeatForm::Native { elem: &**elem, len: &**len }),
        _ => None,
    }
}

} // verus!

//! A reduced model of the host's typed expression tree.
//!
//! The rule inspects only a handful of structural facts about an expression:
//! whether it is a call, an integer literal, or one of the two repeat forms.
//! Every other shape is collapsed into [`ExprKind::Other`], which the rule
//! treats as "not applicable here".

use vstd::prelude::*;

verus! {

/// A region of the source text, as the host's span service reports it.
#[derive(Clone, Copy, PartialEq, Eq, Structural, Debug)]
pub struct Span {
    pub lo: u32,
    pub hi: u32,
}

/// The shape of one node of the typed tree, reduced to what the rule reads.
pub enum ExprKind {
    /// A direct function or method invocation.
    Call,
    /// An integer literal with the given value.
    IntLit(u128),
    /// A bare identifier: a path to a variable or item.
    Path,
    /// The constructor-repeat idiom: build a growable sequence by repeating
    /// one element a given number of times.  Fields: element, length.
    VecRepeat(Box<Expr>, Box<Expr>),
    /// The native fixed-size-array repeat literal.  Fields: element, length,
    /// where the length is the expression found inside the literal's
    /// constant-expression body, already unwrapped by the host.
    ArrayRepeat(Box<Expr>, Box<Expr>),
    /// Any other expression shape.
    Other,
}

/// One node of the typed tree: its source span and its shape.
pub struct Expr {
    pub span: Span,
    pub kind: ExprKind,
}

/// A constant value as the host's constant evaluator reports one.
///
/// The evaluator's full answer for an expression is `Option<Constant>`:
/// `None` means the expression could not be statically resolved.
pub enum Constant {
    /// An integer constant with the given value.
    Int(u128),
    /// A constant of some non-integer kind.
    Other,
}

} // verus!

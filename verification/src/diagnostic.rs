//! The finding itself and the builders of its text.
//!
//! A diagnostic is an immutable value handed to the host's emission sink;
//! rendering and display are entirely the sink's business.  The exact text
//! is part of this rule's contract: the message embeds the offending call's
//! source text, the suggestion is the empty-construction form that matches
//! the recognized repeat shape, and the fix is always marked as possibly
//! incorrect, since suppressing the call changes program behavior.

use vstd::prelude::*;
use vstd::string::StringExecFns;
use crate::ast::Span;

verus! {

/// How safe a suggested replacement is to apply without human review.
/// This rule only ever emits [`Applicability::MaybeIncorrect`].
#[derive(Clone, Copy, PartialEq, Eq, Structural, Debug)]
pub enum Applicability {
    /// The fix can be applied mechanically.
    MachineApplicable,
    /// The fix is plausible but may change behavior; review it first.
    MaybeIncorrect,
    /// The fix contains placeholders the user must fill in.
    HasPlaceholders,
    /// Nothing is known about the fix's safety.
    Unspecified,
}

/// One finding: everything the host's diagnostic sink needs to report it.
pub struct Diagnostic {
    /// Where the report points: the constructor idiom's call site, or the
    /// whole native repeat expression.
    pub span: Span,
    /// The primary message, naming the offending call's source text.
    pub message: String,
    /// The label introducing the suggestion.
    pub label: String,
    /// The replacement text proposed for the span.
    pub suggestion: String,
    /// Whether the replacement is safe to apply unreviewed.
    pub applicability: Applicability,
}

/// The element's source text as the message shows it: the snippet the host
/// returned, or a placeholder token when the lookup failed.
pub open spec fn snippet_or_placeholder(snippet: Option<String>) -> Seq<char> {
    match snippet {
        Some(s) => s@,
        None => "elem"@,
    }
}

/// The message for the constructor form.
pub open spec fn vec_message(snip: Seq<char>) -> Seq<char> {
    "result of `"@ + snip + "` is unused in empty vec"@
}

/// The message for the native form.
pub open spec fn array_message(snip: Seq<char>) -> Seq<char> {
    "result of `"@ + snip + "` is unused in empty array"@
}

/// The label that introduces either suggestion.
pub open spec fn suggestion_label() -> Seq<char> {
    "consider using"@
}

/// The replacement for the constructor form: the empty-construction
/// literal, with no elements and no length argument.
pub open spec fn vec_suggestion() -> Seq<char> {
    "vec![]"@
}

/// The replacement for the native form: an empty array literal annotated
/// with the element's inferred type, since an empty element list leaves
/// the type otherwise unrecoverable.
pub open spec fn array_suggestion(elem_ty: Seq<char>) -> Seq<char> {
    "[] as ["@ + elem_ty + "; 0]"@
}

/// The complete finding for a constructor repeat.
pub open spec fn is_constructor_diagnostic(d: Diagnostic, call_site: Span, snippet: Option<String>) -> bool {
    &&& d.span == call_site
    &&& d.message@ == vec_message(snippet_or_placeholder(snippet))
    &&& d.label@ == suggestion_label()
    &&& d.suggestion@ == vec_suggestion()
    &&& d.applicability == Applicability::MaybeIncorrect
}

/// The complete finding for a native repeat.
pub open spec fn is_native_diagnostic(d: Diagnostic, repeat_span: Span, snippet: Option<String>, elem_ty: Seq<char>) -> bool {
    &&& d.span == repeat_span
    &&& d.message@ == array_message(snippet_or_placeholder(snippet))
    &&& d.label@ == suggestion_label()
    &&& d.suggestion@ == array_suggestion(elem_ty)
    &&& d.applicability == Applicability::MaybeIncorrect
}

/// The element's source text, falling back to the placeholder token.
fn snippet_text(snippet: &Option<String>) -> (s: String)
    ensures
        s@ == snippet_or_placeholder(*snippet),
{
    match snippet {
        Some(s) => s.clone(),
        None => String::from_str("elem"),
    }
}

/// Build the finding for a confirmed constructor repeat of a call.
pub fn constructor_diagnostic(call_site: Span, elem_snippet: &Option<String>) -> (d: Diagnostic)
    ensures
        is_constructor_diagnostic(d, call_site, *elem_snippet),
{
    let snip = snippet_text(elem_snippet);
    let message = String::from_str("result of `")
        .concat(snip.as_str())
        .concat("` is unused in empty vec");
    Diagnostic {
        span: call_site,
        message,
        label: String::from_str("consider using"),
        suggestion: String::from_str("vec![]"),
        applicability: Applicability::MaybeIncorrect,
    }
}

/// Build the finding for a confirmed native repeat of a call, annotating
/// the suggested empty array with the element's rendered type.
pub fn native_diagnostic(repeat_span: Span, elem_snippet: &Option<String>, elem_ty: &str) -> (d: Diagnostic)
    ensures
        is_native_diagnostic(d, repeat_span, *elem_snippet, elem_ty@),
{
    let snip = snippet_text(elem_snippet);
    let message = String::from_str("result of `")
        .concat(snip.as_str())
        .concat("` is unused in empty array");
    let suggestion = String::from_str("[] as [").concat(elem_ty).concat("; 0]");
    Diagnostic {
        span: repeat_span,
        message,
        label: String::from_str("consider using"),
        suggestion,
        applicability: Applicability::MaybeIncorrect,
    }
}

} // verus!

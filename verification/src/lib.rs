//! A static-analysis rule that flags "repeat an element zero times"
//! expressions whose element is a call.
//!
//! Both `vec![f(); 0]` and `[f(); 0]` build an empty container, yet they
//! still evaluate `f()` once and immediately drop its result, silently
//! discarding whatever side effect the call performed.  The rule recognizes
//! the two shapes, confirms that the declared length is statically zero,
//! classifies the element as possibly side-effecting when it is a call, and
//! proposes a replacement that keeps the author's probable intent: an empty
//! container with no element construction.
//!
//! The host front end owns parsing, constant evaluation, type inference,
//! source snippets and diagnostic rendering.  Those collaborators appear
//! here only through their answers, carried as plain values in
//! [`check::HostQueries`]; the decision logic itself is pure and verified.

pub mod ast;
pub mod check;
pub mod diagnostic;
pub mod laws;
pub mod matcher;

//! Ahead-of-time compilation support for embedded script snippets: the
//! option-list rules of an invocation, the structured diagnostics of a failed
//! compilation, and the outcome of one expansion.

use vstd::prelude::*;

pub mod args;
pub mod diagnostic;
pub mod expansion;

verus! {

} // verus!

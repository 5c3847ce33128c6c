//! Front end of a small JavaScript-like language: a byte-level input stream,
//! a hand-rolled tokenizer with single-token pushback and position-based
//! backtracking, a recursive-descent / precedence-climbing parser that builds
//! an abstract syntax tree, and a compact tagged 64-bit value representation
//! for a downstream virtual machine.

use vstd::prelude::*;

pub mod parser;
pub mod vm;

verus! {

/// Initializer for the library, kept for callers that expect a one-time
/// setup step. All lookup tables (single-character tokens, keyword
/// fingerprints) are pure functions, so there is no process-wide state
/// to set up.
pub fn initialize_library() {
    parser::initialize_module();
}

} // verus!

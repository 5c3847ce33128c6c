//! The parser pipeline: character classification, token kinds and operator
//! precedence, the input stream, the tokenizer, the AST, and the AST builder.

use vstd::prelude::*;

pub mod ast;
pub mod ast_builder;
pub mod char_utils;
pub mod fingerprint;
pub mod input_stream;
pub mod precedence;
pub mod token_kind;
pub mod tokenizer;

verus! {

/// Initializer for the parser module, kept for callers that expect a
/// one-time setup step. The token tables are pure functions, so nothing
/// needs setup.
pub fn initialize_module() {
}

} // verus!

//! Options of the lexer.

use vstd::prelude::*;

verus! {

/// How the lexer is asked to work.
pub struct LexerContext {
    /// Debug mode: every consumed token is kept for echoing.
    pub debug_print_token: bool,
}

} // verus!

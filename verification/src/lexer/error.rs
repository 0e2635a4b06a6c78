//! Diagnostics of the lexer.

use crate::compiler_data::position::Position;
use crate::main_error::{Diagnostic, IrantaCompilerError};
use vstd::prelude::*;

verus! {

/// A malformed character or numeric literal.
#[derive(Clone, Debug, PartialEq, Eq)]
pub struct LexicalError {
    pub pos: Position,
    pub msg: String,
}

impl View for LexicalError {
    type V = Diagnostic;

    open spec fn view(&self) -> Diagnostic {
        Diagnostic { pos: self.pos, msg: self.msg@ }
    }
}

impl IrantaCompilerError for LexicalError {
    open spec fn diagnostic(&self) -> Diagnostic {
        self@
    }

    fn get_pos(&self) -> (pos: &Position) {
        &self.pos
    }

    fn get_msg(&self) -> (msg: &str) {
        self.msg.as_str()
    }
}

impl LexicalError {
    /// A lexical error at `pos` that says `msg`.
    #[must_use]
    pub fn new(pos: Position, msg: String) -> (error: LexicalError)
        ensures
            error.pos == pos,
            error.msg == msg,
    {
        LexicalError { pos, msg }
    }
}

/// What a lexer step yields: a value or a lexical error.
pub type LexicalResult<T> = Result<T, LexicalError>;

} // verus!

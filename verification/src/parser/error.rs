//! Diagnostics of the parser.

use crate::compiler_data::position::Position;
use crate::lexer::error::LexicalError;
use crate::main_error::{Diagnostic, IrantaCompilerError};
use vstd::prelude::*;

verus! {

/// An unexpected token or an unmatched parenthesis. A lexical error met while
/// parsing surfaces as a syntax error with the same span and message.
#[derive(Clone, Debug, PartialEq, Eq)]
pub struct SyntaxError {
    pub pos: Position,
    pub msg: String,
}

/// The syntax errors of one compilation, in the order they were found.
#[derive(Clone, Debug, PartialEq, Eq)]
pub struct SyntaxErrorList {
    pub list: Vec<SyntaxError>,
}

impl View for SyntaxError {
    type V = Diagnostic;

    open spec fn view(&self) -> Diagnostic {
        Diagnostic { pos: self.pos, msg: self.msg@ }
    }
}

impl View for SyntaxErrorList {
    type V = Seq<Diagnostic>;

    open spec fn view(&self) -> Seq<Diagnostic> {
        self.list@.map_values(|error: SyntaxError| error@)
    }
}

impl IrantaCompilerError for SyntaxError {
    open spec fn diagnostic(&self) -> Diagnostic {
        self@
    }

    fn get_pos(&self) -> (pos: &Position) {
        &self.pos
    }

    fn get_msg(&self) -> (msg: &str) {
        self.msg.as_str()
    }
}

impl SyntaxError {
    /// A syntax error at `pos` that says `msg`.
    #[must_use]
    pub fn new(pos: Position, msg: String) -> (error: SyntaxError)
        ensures
            error.pos == pos,
            error.msg == msg,
    {
        SyntaxError { pos, msg }
    }

    /// The syntax error that a lexical error surfaces as.
    #[must_use]
    pub fn from(value: LexicalError) -> (error: SyntaxError)
        ensures
            error@ == value@,
    {
        SyntaxError::new(value.pos, value.msg)
    }
}

impl SyntaxErrorList {
    /// An empty list.
    #[must_use]
    pub fn new() -> (errors: SyntaxErrorList)
        ensures
            errors@ == Seq::<Diagnostic>::empty(),
    {
        SyntaxErrorList { list: Vec::new() }
    }

    /// Appends the errors of `other`, in their order, behind those of `self`.
    pub fn combine(&mut self, other: SyntaxErrorList)
        ensures
            final(self)@ == old(self)@ + other@,
    {
        let mut rest = other.list;
        self.list.append(&mut rest);
    }

    /// The list that holds `value` alone.
    #[must_use]
    pub fn from(value: SyntaxError) -> (errors: SyntaxErrorList)
        ensures
            errors@ == seq![value@],
    {
        let mut list = Vec::new();
        list.push(value);
        SyntaxErrorList { list }
    }

    /// The list that holds the syntax error of `value` alone.
    #[must_use]
    pub fn from_lexical(value: LexicalError) -> (errors: SyntaxErrorList)
        ensures
            errors@ == seq![value@],
    {
        SyntaxErrorList::from(SyntaxError::from(value))
    }
}

/// What a parser step yields: a value or one syntax error.
pub type SyntaxResult<T> = Result<T, SyntaxError>;

/// What parsing yields: a value or the list of syntax errors.
pub type SyntaxResultList<T> = Result<T, SyntaxErrorList>;

} // verus!

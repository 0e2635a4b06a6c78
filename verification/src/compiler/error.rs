//! Diagnostics of the code generator.

use crate::compiler_data::position::Position;
use crate::main_error::{Diagnostic, IrantaCompilerError};
use vstd::prelude::*;

verus! {

/// A type mismatch, an operator that a type does not have, or an operator
/// that is not implemented.
#[derive(Clone, Debug, PartialEq, Eq)]
pub struct CompileError {
    pub pos: Position,
    pub msg: String,
}

/// The compile errors of one compilation, in the order they were found.
#[derive(Clone, Debug, PartialEq, Eq)]
pub struct CompileErrorList {
    pub list: Vec<CompileError>,
}

impl View for CompileError {
    type V = Diagnostic;

    open spec fn view(&self) -> Diagnostic {
        Diagnostic { pos: self.pos, msg: self.msg@ }
    }
}

impl View for CompileErrorList {
    type V = Seq<Diagnostic>;

    open spec fn view(&self) -> Seq<Diagnostic> {
        self.list@.map_values(|error: CompileError| error@)
    }
}

impl IrantaCompilerError for CompileError {
    open spec fn diagnostic(&self) -> Diagnostic {
        self@
    }

    fn get_pos(&self) -> (pos: &Position) {
        &self.pos
    }

    fn get_msg(&self) -> (msg: &str) {
        self.msg.as_str()
    }
}

impl CompileError {
    /// A compile error at `pos` that says `msg`.
    #[must_use]
    pub fn new(pos: Position, msg: String) -> (error: CompileError)
        ensures
            error.pos == pos,
            error.msg == msg,
    {
        CompileError { pos, msg }
    }

    /// The list that holds this error alone.
    #[must_use]
    pub fn into(self) -> (errors: CompileErrorList)
        ensures
            errors@ == seq![self@],
    {
        let mut list = Vec::new();
        list.push(self);
        CompileErrorList::new(list)
    }
}

impl CompileErrorList {
    /// The list of the errors in `list`, in their order.
    #[must_use]
    pub fn new(list: Vec<CompileError>) -> (errors: CompileErrorList)
        ensures
            errors.list == list,
    {
        CompileErrorList { list }
    }

    /// Appends the errors of `other`, in their order, behind those of `self`.
    pub fn combine(&mut self, other: CompileErrorList)
        ensures
            final(self)@ == old(self)@ + other@,
    {
        let mut rest = other.list;
        self.list.append(&mut rest);
    }
}

/// What a code generation step yields: a value or one compile error.
pub type CompileResult<T> = Result<T, CompileError>;

/// What code generation yields: a value or the list of compile errors.
pub type CompileResultList<T> = Result<T, CompileErrorList>;

} // verus!

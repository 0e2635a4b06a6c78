//! Compiler for single arithmetic expressions over numeric literals that are
//! tagged with their width and signedness.
//!
//! Source text goes through three stages: the lexer (`lexer`) turns it into
//! positioned tokens, the parser (`parser`) builds the expression tree
//! (`ast`) by precedence climbing, and the code generator (`compiler`) walks
//! the tree, checks the types and drives an LLVM backend. Spans, type
//! handles and literal payloads are in `compiler_data`, what the diagnostics
//! of the stages share in `main_error`, the command line in `args`.

pub mod args;
pub mod ast;
pub mod compiler;
pub mod compiler_data;
pub mod debug;
pub mod lexer;
pub mod main_error;
pub mod parser;
pub mod text;

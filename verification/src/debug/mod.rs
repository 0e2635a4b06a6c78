//! Aids for looking at what the compiler built.

pub mod ast_printer;

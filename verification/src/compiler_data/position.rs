//! Source spans used by every diagnostic.

use crate::text::{decimal_text, push_decimal};
use vstd::prelude::*;

verus! {

/// An inclusive span of source text: start and end line, start and end column.
#[derive(Clone, Copy, Debug, PartialEq, Eq, Structural)]
pub struct Position {
    pub start_line: usize,
    pub end_line: usize,
    pub start_col: usize,
    pub end_col: usize,
}

impl Position {
    /// The span that starts where `start` starts and ends where `end` ends.
    pub open spec fn spec_combine(start: Position, end: Position) -> Position {
        Position {
            start_line: start.start_line,
            end_line: end.end_line,
            start_col: start.start_col,
            end_col: end.end_col,
        }
    }

    /// Merges two spans into the span from the start of the first to the end of the second.
    #[must_use]
    pub fn combine(start: &Position, end: &Position) -> (merged: Position)
        ensures
            merged == Self::spec_combine(*start, *end),
    {
        Position {
            start_line: start.start_line,
            end_line: end.end_line,
            start_col: start.start_col,
            end_col: end.end_col,
        }
    }

    /// The span as text: `[line 3 | column 4]` for one character,
    /// `[line 3 | column 4:7]` within one line, and both lines and, after
    /// `column`, both columns with `--` between them for a span of several lines.
    pub open spec fn text(self) -> Seq<char> {
        if self.start_line == self.end_line {
            "[line "@ + decimal_text(self.start_line as nat) + " | column "@ + (if self.start_col
                == self.end_col {
                decimal_text(self.start_col as nat)
            } else {
                decimal_text(self.start_col as nat) + ":"@ + decimal_text(self.end_col as nat)
            }) + "]"@
        } else {
            "[line "@ + decimal_text(self.start_line as nat) + ":"@ + decimal_text(
                self.end_line as nat,
            ) + " | column"@ + (if self.start_col == self.end_col {
                decimal_text(self.start_col as nat)
            } else {
                decimal_text(self.start_col as nat) + "--"@ + decimal_text(self.end_col as nat)
            }) + "]"@
        }
    }

    /// The span as text.
    #[must_use]
    pub fn to_string(&self) -> (text: String)
        ensures
            text@ == self.text(),
    {
        let mut text = "[line ".to_owned();
        push_decimal(&mut text, self.start_line as u128);
        if self.start_line == self.end_line {
            text.append(" | column ");
            push_decimal(&mut text, self.start_col as u128);
            if self.start_col != self.end_col {
                text.append(":");
                push_decimal(&mut text, self.end_col as u128);
            }
        } else {
            text.append(":");
            push_decimal(&mut text, self.end_line as u128);
            text.append(" | column");
            push_decimal(&mut text, self.start_col as u128);
            if self.start_col != self.end_col {
                text.append("--");
                push_decimal(&mut text, self.end_col as u128);
            }
        }
        text.append("]");
        assert(text@ =~= self.text());
        text
    }
}

} // verus!

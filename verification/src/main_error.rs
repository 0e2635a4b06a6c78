//! What every diagnostic of the compiler has in common.

use crate::compiler_data::position::Position;
use crate::text::{chars_of, push_repeated, repeated};
use vstd::prelude::*;

verus! {

/// What a diagnostic is in contracts: where it points and what it says.
pub struct Diagnostic {
    pub pos: Position,
    pub msg: Seq<char>,
}

/// A diagnostic of one compiler stage: a span of source text and a message.
pub trait IrantaCompilerError {
    /// The diagnostic's span and message.
    spec fn diagnostic(&self) -> Diagnostic;

    /// The span of source text that the diagnostic points at.
    #[must_use]
    fn get_pos(&self) -> (pos: &Position)
        ensures
            *pos == self.diagnostic().pos,
    ;

    /// The diagnostic's message.
    #[must_use]
    fn get_msg(&self) -> (msg: &str)
        ensures
            msg@ == self.diagnostic().msg,
    ;
}

/// The source text cut into lines, for excerpts in rendered diagnostics.
pub struct CopySource<'a> {
    pub lines: Vec<&'a str>,
}

impl<'a> CopySource<'a> {
    /// The lines as contracts see them.
    pub open spec fn texts(&self) -> Seq<Seq<char>> {
        self.lines@.map_values(|line: &'a str| line@)
    }

    /// Whether the lines that `pos` starts and ends in exist, and its start
    /// column is counted from 1 as the lines are.
    pub open spec fn spec_covers(&self, pos: Position) -> bool {
        &&& 1 <= pos.start_col
        &&& 1 <= pos.start_line <= self.lines@.len()
        &&& pos.end_line > pos.start_line ==> pos.end_line <= self.lines@.len()
    }

    /// Whether an excerpt for `pos` can be shown: the lines that `pos`
    /// starts and ends in exist, and its start column is counted from 1.
    #[verifier::when_used_as_spec(spec_covers)]
    pub fn covers(&self, pos: Position) -> (shown: bool)
        ensures
            shown == self.spec_covers(pos),
    {
        let count = self.lines.len();
        pos.start_col >= 1 && pos.start_line >= 1 && pos.start_line <= count && (pos.end_line
            <= pos.start_line || pos.end_line <= count)
    }
}

/// The number of columns from `start` to `end`, both counted; none where
/// `end` lies before `start`.
pub open spec fn span_width(start: int, end: int) -> nat {
    if end >= start {
        (end - start + 1) as nat
    } else {
        0
    }
}

/// A line of source text in an excerpt.
pub open spec fn quoted(line: Seq<char>) -> Seq<char> {
    "> "@ + line + "\n"@
}

/// A line of `carets` carets behind `indent` spaces, under a quoted line.
pub open spec fn underline(indent: nat, carets: nat) -> Seq<char> {
    "  "@ + repeated(' ', indent) + repeated('^', carets) + "\n"@
}

/// A diagnostic as it is shown: a headline of kind, span and message, and an
/// excerpt of the source with carets under the span. Within one line the
/// carets lie under the exact columns. Over several lines they run from the
/// start column to the end of the first line and from the start of the last
/// line to the end column, with a line of dots where lines lie between.
pub open spec fn rendered(kind: Seq<char>, error: Diagnostic, lines: Seq<Seq<char>>) -> Seq<
    char,
> {
    let pos = error.pos;
    let first = lines[pos.start_line - 1];
    let indent = (pos.start_col - 1) as nat;
    let headline = kind + " "@ + pos.text() + " "@ + error.msg + "\n"@;
    if pos.start_line == pos.end_line {
        headline + quoted(first) + underline(
            indent,
            span_width(pos.start_col as int, pos.end_col as int),
        )
    } else {
        let top = headline + quoted(first) + underline(
            indent,
            span_width(pos.start_col as int, first.len() as int),
        );
        if pos.end_line > pos.start_line {
            top + (if pos.end_line - pos.start_line > 1 {
                "> ......\n"@
            } else {
                Seq::empty()
            }) + quoted(lines[pos.end_line - 1]) + underline(
                0,
                span_width(1, pos.end_col as int),
            )
        } else {
            top
        }
    }
}

fn push_underline(text: &mut String, indent: usize, carets: usize)
    ensures
        final(text)@ == old(text)@ + underline(indent as nat, carets as nat),
{
    text.append("  ");
    push_repeated(text, ' ', indent);
    push_repeated(text, '^', carets);
    text.append("\n");
    assert(text@ =~= old(text)@ + underline(indent as nat, carets as nat));
}

fn push_quoted(text: &mut String, line: &str)
    ensures
        final(text)@ == old(text)@ + quoted(line@),
{
    text.append("> ");
    text.append(line);
    text.append("\n");
    assert(text@ =~= old(text)@ + quoted(line@));
}

fn width(start: usize, end: usize) -> (columns: usize)
    requires
        1 <= start,
    ensures
        columns == span_width(start as int, end as int),
{
    if end >= start {
        end - start + 1
    } else {
        0
    }
}

/// The text that shows one diagnostic of kind `error_type` with an excerpt
/// of the source.
pub fn render_error<E: IrantaCompilerError>(
    error_type: &str,
    error: &E,
    copy_source: &CopySource,
) -> (text: String)
    requires
        copy_source.covers(error.diagnostic().pos),
    ensures
        text@ == rendered(error_type@, error.diagnostic(), copy_source.texts()),
{
    let pos = *error.get_pos();
    let msg = error.get_msg();
    let mut text = error_type.to_owned();
    text.append(" ");
    let place = pos.to_string();
    text.append(place.as_str());
    text.append(" ");
    text.append(msg);
    text.append("\n");
    let ghost headline = text@;
    let line = copy_source.lines[pos.start_line - 1];
    assert(copy_source.texts()[pos.start_line - 1] == line@);
    push_quoted(&mut text, line);
    let indent = pos.start_col - 1;
    if pos.start_line == pos.end_line {
        push_underline(&mut text, indent, width(pos.start_col, pos.end_col));
    } else {
        let length = chars_of(line).len();
        push_underline(&mut text, indent, width(pos.start_col, length));
        if pos.end_line > pos.start_line {
            if pos.end_line - pos.start_line > 1 {
                text.append("> ......\n");
            }
            let last = copy_source.lines[pos.end_line - 1];
            assert(copy_source.texts()[pos.end_line - 1] == last@);
            push_quoted(&mut text, last);
            push_underline(&mut text, 0, width(1, pos.end_col));
        }
    }
    assert(text@ =~= rendered(error_type@, error.diagnostic(), copy_source.texts()));
    text
}

} // verus!

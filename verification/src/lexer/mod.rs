//! The lexer: source text to positioned tokens, one token of lookahead.
//!
//! The lexer is pulled: `peek_token` shows the next token and `get_token`
//! consumes it. What either returns is fixed by the spec functions of this
//! module, which read the source from a cursor: `scan_token` for one token,
//! `scan` for one token and the recovery after an error.

pub mod context;
pub mod error;
pub mod number;
pub mod token;

use crate::compiler_data::position::Position;
use crate::lexer::context::LexerContext;
use crate::lexer::error::{LexicalError, LexicalResult};
use crate::lexer::number::{classify_number, digit_of, is_digit_of, number_literal};
use crate::lexer::token::{Lexeme, Token, TokenKind, TokenOperator, TokenParen, TokenType};
use crate::main_error::Diagnostic;
use crate::text::{char_is_alphanumeric, char_is_whitespace, chars_of, is_alphanumeric, is_whitespace};
use vstd::prelude::*;

verus! {

/// A place in the source: the index of the next character, its line and its column.
pub struct Cursor {
    pub current: int,
    pub line: int,
    pub col: int,
}

impl Cursor {
    /// The cursor lies within `chars`, and line and column are at least 1 and
    /// no more than one beyond the characters passed.
    pub open spec fn wf(self, chars: Seq<char>) -> bool {
        &&& 0 <= self.current <= chars.len()
        &&& 1 <= self.col <= self.current + 1
        &&& 1 <= self.line <= self.current + 1
    }
}

/// The character under the cursor, NUL at the end of the input.
pub open spec fn next_char(chars: Seq<char>, c: Cursor) -> char {
    if 0 <= c.current < chars.len() {
        chars[c.current]
    } else {
        '\0'
    }
}

/// The cursor one character on; a newline starts the next line at column 1.
/// At the end of the input the cursor stays.
pub open spec fn advance(chars: Seq<char>, c: Cursor) -> Cursor {
    if 0 <= c.current < chars.len() {
        if chars[c.current] == '\n' {
            Cursor { current: c.current + 1, line: c.line + 1, col: 1 }
        } else {
            Cursor { current: c.current + 1, line: c.line, col: c.col + 1 }
        }
    } else {
        c
    }
}

/// The cursor behind the whitespace that it stands on; a NUL is not skipped.
pub open spec fn skip_whitespace(chars: Seq<char>, c: Cursor) -> Cursor
    decreases chars.len() - c.current,
{
    if 0 <= c.current < chars.len() && chars[c.current] != '\0' && is_whitespace(
        chars[c.current],
    ) {
        skip_whitespace(chars, advance(chars, c))
    } else {
        c
    }
}

/// The cursor at the next whitespace, NUL or end of input: where scanning
/// resumes after a lexical error.
pub open spec fn synchronize(chars: Seq<char>, c: Cursor) -> Cursor
    decreases chars.len() - c.current,
{
    if 0 <= c.current < chars.len() && chars[c.current] != '\0' && !is_whitespace(
        chars[c.current],
    ) {
        synchronize(chars, advance(chars, c))
    } else {
        c
    }
}

/// The span of a token that began at column `start_col` and ends before the
/// cursor. A token that ends with the input is placed one column beyond it.
pub open spec fn token_pos(chars: Seq<char>, c: Cursor, start_col: int) -> Position {
    if c.current == chars.len() {
        Position {
            start_line: c.line as usize,
            end_line: c.line as usize,
            start_col: (c.col + 1) as usize,
            end_col: (c.col + 1) as usize,
        }
    } else {
        Position {
            start_line: c.line as usize,
            end_line: c.line as usize,
            start_col: start_col as usize,
            end_col: (c.col - 1) as usize,
        }
    }
}

/// The span of the one character before the cursor; one column beyond the
/// input where the cursor is at its end.
pub open spec fn cursor_pos(chars: Seq<char>, c: Cursor) -> Position {
    if c.current == chars.len() {
        Position {
            start_line: c.line as usize,
            end_line: c.line as usize,
            start_col: (c.col + 1) as usize,
            end_col: (c.col + 1) as usize,
        }
    } else {
        Position {
            start_line: c.line as usize,
            end_line: c.line as usize,
            start_col: (c.col - 1) as usize,
            end_col: (c.col - 1) as usize,
        }
    }
}

/// The radix that a literal's first two characters select: 2, 8 or 16 after
/// `0b`, `0o` or `0x`, else 10.
pub open spec fn radix_of(first: char, second: char) -> int {
    if first == '0' && second == 'b' {
        2
    } else if first == '0' && second == 'o' {
        8
    } else if first == '0' && second == 'x' {
        16
    } else {
        10
    }
}

/// Whether `c` continues the digits of a literal in `radix`: a decimal digit
/// always does, a digit of the radix too.
pub open spec fn is_literal_digit(c: char, radix: int) -> bool {
    is_digit_of(c, 10) || is_digit_of(c, radix)
}

/// The digits of a literal as far as they were read.
pub struct DigitScan {
    /// Where reading stopped.
    pub cursor: Cursor,
    /// Whether a dot was read.
    pub found_dot: bool,
    /// The digits and the dot, without the underscores.
    pub text: Seq<char>,
    /// Whether reading stopped at a second dot.
    pub second_dot: bool,
}

/// Reads the digits of a literal from the cursor on: digits and one dot are
/// kept, underscores are passed over, a second dot stops the reading.
pub open spec fn scan_digits(
    chars: Seq<char>,
    radix: int,
    c: Cursor,
    found_dot: bool,
    text: Seq<char>,
) -> DigitScan
    decreases chars.len() - c.current,
{
    if 0 <= c.current < chars.len() {
        let ch = chars[c.current];
        if ch == '.' {
            if found_dot {
                DigitScan { cursor: c, found_dot, text, second_dot: true }
            } else {
                scan_digits(chars, radix, advance(chars, c), true, text.push(ch))
            }
        } else if ch == '_' {
            scan_digits(chars, radix, advance(chars, c), found_dot, text)
        } else if is_literal_digit(ch, radix) {
            scan_digits(chars, radix, advance(chars, c), found_dot, text.push(ch))
        } else {
            DigitScan { cursor: c, found_dot, text, second_dot: false }
        }
    } else {
        DigitScan { cursor: c, found_dot, text, second_dot: false }
    }
}

/// The tag of a literal as far as it was read.
pub struct TagScan {
    /// Where reading stopped.
    pub cursor: Cursor,
    /// The letters and digits of the tag, without the underscores.
    pub text: Seq<char>,
    /// Whether reading stopped at a dot.
    pub dot: bool,
}

/// Reads the tag of a literal from the cursor on: letters and digits are
/// kept, underscores are passed over, a dot stops the reading.
pub open spec fn scan_tag(chars: Seq<char>, c: Cursor, text: Seq<char>) -> TagScan
    decreases chars.len() - c.current,
{
    if 0 <= c.current < chars.len() {
        let ch = chars[c.current];
        if ch == '_' {
            scan_tag(chars, advance(chars, c), text)
        } else if ch == '.' {
            TagScan { cursor: c, text, dot: true }
        } else if is_alphanumeric(ch) {
            scan_tag(chars, advance(chars, c), text.push(ch))
        } else {
            TagScan { cursor: c, text, dot: false }
        }
    } else {
        TagScan { cursor: c, text, dot: false }
    }
}

/// The digits of a literal with a dot, made whole: a 0 is put before a
/// leading dot, else behind a trailing one.
pub open spec fn normalize(text: Seq<char>) -> Seq<char> {
    if text.len() > 0 && text.first() == '.' {
        text.insert(0, '0')
    } else if text.len() > 0 && text.last() == '.' {
        text.push('0')
    } else {
        text
    }
}

/// What scanning yields: a token or a lexical error, and where the cursor is then.
pub struct Scan {
    pub outcome: Result<Lexeme, Diagnostic>,
    pub cursor: Cursor,
}

/// Reads a numeric literal whose first character, `first`, lies just before
/// the cursor and in column `start_col`.
pub open spec fn scan_number(chars: Seq<char>, c: Cursor, start_col: int, first: char) -> Scan {
    let radix = radix_of(first, next_char(chars, c));
    let after_prefix = if radix != 10 {
        advance(chars, c)
    } else {
        c
    };
    let digits = scan_digits(chars, radix, after_prefix, first == '.', seq![first]);
    if digits.second_dot {
        Scan {
            outcome: Err(
                Diagnostic { pos: cursor_pos(chars, digits.cursor), msg: "Unexpected dot."@ },
            ),
            cursor: digits.cursor,
        }
    } else {
        let tag = scan_tag(chars, digits.cursor, Seq::empty());
        if tag.dot {
            Scan {
                outcome: Err(
                    Diagnostic { pos: cursor_pos(chars, tag.cursor), msg: "Unexpected dot."@ },
                ),
                cursor: tag.cursor,
            }
        } else if digits.found_dot && digits.text.len() == 1 {
            Scan {
                outcome: Err(
                    Diagnostic { pos: cursor_pos(chars, tag.cursor), msg: "Invalid syntax."@ },
                ),
                cursor: tag.cursor,
            }
        } else {
            let text = if digits.found_dot {
                normalize(digits.text)
            } else {
                digits.text
            };
            let pos = token_pos(chars, tag.cursor, start_col);
            Scan {
                outcome: match number_literal(text, tag.text, radix, digits.found_dot) {
                    Ok(literal) => Ok(Lexeme { pos, kind: TokenKind::Literal(literal) }),
                    Err(msg) => Err(Diagnostic { pos, msg }),
                },
                cursor: tag.cursor,
            }
        }
    }
}

/// Reads one token from the cursor on, after the whitespace before it. A
/// NUL character ends the input as the end of the text does: the
/// end-of-input token is placed at it and the cursor stays before it, so
/// that the end repeats.
pub open spec fn scan_token(chars: Seq<char>, c: Cursor) -> Scan {
    let begin = skip_whitespace(chars, c);
    let ch = next_char(chars, begin);
    let after = advance(chars, begin);
    let simple = |kind: TokenKind|
        Scan {
            outcome: Ok(Lexeme { pos: token_pos(chars, after, begin.col), kind }),
            cursor: after,
        };
    if ch == '\0' {
        Scan {
            outcome: Ok(
                Lexeme { pos: token_pos(chars, after, begin.col), kind: TokenKind::EOF },
            ),
            cursor: begin,
        }
    } else if ch == '+' {
        simple(TokenKind::Operator(TokenOperator::Plus))
    } else if ch == '-' {
        simple(TokenKind::Operator(TokenOperator::Minus))
    } else if ch == '*' {
        if next_char(chars, after) == '*' {
            let behind = advance(chars, after);
            Scan {
                outcome: Ok(
                    Lexeme {
                        pos: token_pos(chars, behind, begin.col),
                        kind: TokenKind::Operator(TokenOperator::Power),
                    },
                ),
                cursor: behind,
            }
        } else {
            simple(TokenKind::Operator(TokenOperator::Multiply))
        }
    } else if ch == '/' {
        simple(TokenKind::Operator(TokenOperator::Divide))
    } else if ch == '(' {
        simple(TokenKind::Paren(TokenParen::LeftParen))
    } else if ch == ')' {
        simple(TokenKind::Paren(TokenParen::RightParen))
    } else if ch == '.' || is_digit_of(ch, 10) {
        scan_number(chars, after, begin.col, ch)
    } else {
        Scan {
            outcome: Err(
                Diagnostic { pos: cursor_pos(chars, after), msg: "Invalid character."@ },
            ),
            cursor: after,
        }
    }
}

/// Reads one token; after a lexical error the cursor moves on to the next
/// whitespace or the end of the input, where scanning can resume.
pub open spec fn scan(chars: Seq<char>, c: Cursor) -> Scan {
    let read = scan_token(chars, c);
    match read.outcome {
        Ok(_) => read,
        Err(_) => Scan { outcome: read.outcome, cursor: synchronize(chars, read.cursor) },
    }
}

/// What a lexer is in contracts.
pub struct LexerState {
    /// The source.
    pub chars: Seq<char>,
    /// Where the next token is read from.
    pub cursor: Cursor,
    /// The token that was peeked at and not yet consumed.
    pub buffered: Option<Lexeme>,
    /// The tokens consumed in debug mode and not yet handed out.
    pub echo: Seq<Lexeme>,
}

/// What a request to the lexer yields, and the lexer's state after it.
pub struct Pull {
    pub outcome: Result<Lexeme, Diagnostic>,
    pub state: LexerState,
}

impl LexerState {
    /// The source is short enough for columns to be counted, and the cursor lies in it.
    pub open spec fn wf(self) -> bool {
        &&& self.chars.len() + 2 <= usize::MAX
        &&& self.cursor.wf(self.chars)
    }

    /// Looking at the next token: the token stays buffered. A lexical error
    /// is not buffered; the cursor has moved on behind it.
    pub open spec fn peek(self) -> Pull {
        match self.buffered {
            Some(token) => Pull { outcome: Ok(token), state: self },
            None => {
                let read = scan(self.chars, self.cursor);
                match read.outcome {
                    Ok(token) => Pull {
                        outcome: Ok(token),
                        state: LexerState { cursor: read.cursor, buffered: Some(token), ..self },
                    },
                    Err(error) => Pull {
                        outcome: Err(error),
                        state: LexerState { cursor: read.cursor, ..self },
                    },
                }
            },
        }
    }

    /// Consuming the next token: the buffer is empty afterwards, and in debug
    /// mode the token is added to the echo.
    pub open spec fn get(self, debug: bool) -> Pull {
        let peeked = self.peek();
        match peeked.outcome {
            Ok(token) => Pull {
                outcome: Ok(token),
                state: LexerState {
                    buffered: None,
                    echo: if debug {
                        peeked.state.echo.push(token)
                    } else {
                        peeked.state.echo
                    },
                    ..peeked.state
                },
            },
            Err(_) => peeked,
        }
    }

    /// How much is left to read: the characters behind the cursor, and the
    /// buffered token unless it is the end of the input.
    pub open spec fn remaining(self) -> int {
        self.chars.len() - self.cursor.current + match self.buffered {
            Some(token) => if token.kind is EOF {
                0int
            } else {
                1int
            },
            None => 0int,
        }
    }
}

/// A token or lexical error as contracts see it.
pub open spec fn outcome_view(outcome: LexicalResult<Token>) -> Result<Lexeme, Diagnostic> {
    match outcome {
        Ok(token) => Ok(token@),
        Err(error) => Err(error@),
    }
}

/// A literal with a radix prefix is a lexical error whenever it has a dot or
/// a float tag.
pub proof fn lemma_radix_prefix_excludes_float(
    chars: Seq<char>,
    c: Cursor,
    start_col: int,
    first: char,
)
    requires
        radix_of(first, next_char(chars, c)) != 10,
    ensures
        ({
            let radix = radix_of(first, next_char(chars, c));
            let digits = scan_digits(chars, radix, advance(chars, c), first == '.', seq![first]);
            let tag = scan_tag(chars, digits.cursor, Seq::empty());
            digits.found_dot || digits.second_dot || tag.dot || tag.text == "float32"@
                || tag.text == "float64"@
        }) ==> scan_number(chars, c, start_col, first).outcome is Err,
{
    let radix = radix_of(first, next_char(chars, c));
    let digits = scan_digits(chars, radix, advance(chars, c), first == '.', seq![first]);
    let tag = scan_tag(chars, digits.cursor, Seq::empty());
    let text = if digits.found_dot {
        normalize(digits.text)
    } else {
        digits.text
    };
    if digits.found_dot || tag.text == "float32"@ || tag.text == "float64"@ {
        crate::lexer::number::lemma_radix_prefix_excludes_float(
            text,
            tag.text,
            radix,
            digits.found_dot,
        );
    }
}

/// The cursor `n` characters on within one line.
pub open spec fn moved(c: Cursor, n: int) -> Cursor {
    Cursor { current: c.current + n, line: c.line, col: c.col + n }
}

/// Whether `word` stands in `chars` at index `at`.
pub open spec fn stands_at(chars: Seq<char>, at: int, word: Seq<char>) -> bool {
    &&& 0 <= at
    &&& at + word.len() <= chars.len()
    &&& chars.subrange(at, at + word.len()) == word
}

/// Whether every character of `word` continues the digits of a literal in `radix`.
pub open spec fn is_digit_word(word: Seq<char>, radix: int) -> bool {
    forall|i: int| 0 <= i < word.len() ==> is_literal_digit(#[trigger] word[i], radix)
}

/// Whether `tag` can follow the digits of a literal in `radix` as its tag:
/// letters and digits without dot or underscore, the first of which does not
/// continue the digits.
pub open spec fn is_tag_word(tag: Seq<char>, radix: int) -> bool {
    &&& forall|i: int|
        0 <= i < tag.len() ==> is_alphanumeric(#[trigger] tag[i]) && tag[i] != '_' && tag[i]
            != '.'
    &&& tag.len() > 0 ==> !is_literal_digit(tag[0], radix)
}

/// Whether a literal in `radix` that reaches up to index `at` ends there: the
/// input ends, or the next character continues neither digits nor tag.
pub open spec fn literal_ends(chars: Seq<char>, at: int, radix: int) -> bool {
    at >= chars.len() || (chars[at] != '_' && chars[at] != '.' && !is_alphanumeric(chars[at])
        && !is_literal_digit(chars[at], radix))
}

/// Digits that stand under the cursor are read up to their last one.
pub proof fn lemma_scan_digit_word(
    chars: Seq<char>,
    radix: int,
    c: Cursor,
    found_dot: bool,
    text: Seq<char>,
    word: Seq<char>,
)
    requires
        radix <= 36,
        stands_at(chars, c.current, word),
        is_digit_word(word, radix),
        c.current + word.len() < chars.len() ==> {
            let ch = chars[c.current + word.len()];
            ch != '.' && ch != '_' && !is_literal_digit(ch, radix)
        },
    ensures
        scan_digits(chars, radix, c, found_dot, text) == (DigitScan {
            cursor: moved(c, word.len() as int),
            found_dot,
            text: text + word,
            second_dot: false,
        }),
    decreases word.len(),
{
    if word.len() == 0 {
        assert(text + word =~= text);
    } else {
        let ch = chars[c.current];
        assert(ch == word[0]);
        assert(is_literal_digit(word[0], radix));
        let rest = word.drop_first();
        assert(chars.subrange(c.current + 1, c.current + 1 + rest.len()) =~= rest);
        assert forall|i: int| 0 <= i < rest.len() implies is_literal_digit(
            #[trigger] rest[i],
            radix,
        ) by {
            assert(rest[i] == word[i + 1]);
        }
        lemma_scan_digit_word(chars, radix, advance(chars, c), found_dot, text.push(ch), rest);
        assert(text.push(ch) + rest =~= text + word);
    }
}

/// A tag that stands under the cursor is read up to its last character.
pub proof fn lemma_scan_tag_word(chars: Seq<char>, c: Cursor, text: Seq<char>, tag: Seq<char>)
    requires
        stands_at(chars, c.current, tag),
        forall|i: int|
            0 <= i < tag.len() ==> is_alphanumeric(#[trigger] tag[i]) && tag[i] != '_' && tag[i]
                != '.' && tag[i] != '\n',
        c.current + tag.len() < chars.len() ==> {
            let ch = chars[c.current + tag.len()];
            ch != '.' && ch != '_' && !is_alphanumeric(ch)
        },
    ensures
        scan_tag(chars, c, text) == (TagScan {
            cursor: moved(c, tag.len() as int),
            text: text + tag,
            dot: false,
        }),
    decreases tag.len(),
{
    if tag.len() == 0 {
        assert(text + tag =~= text);
    } else {
        let ch = chars[c.current];
        assert(ch == tag[0]);
        let rest = tag.drop_first();
        assert(chars.subrange(c.current + 1, c.current + 1 + rest.len()) =~= rest);
        assert forall|i: int| 0 <= i < rest.len() implies is_alphanumeric(#[trigger] rest[i])
            && rest[i] != '_' && rest[i] != '.' && rest[i] != '\n' by {
            assert(rest[i] == tag[i + 1]);
        }
        lemma_scan_tag_word(chars, advance(chars, c), text.push(ch), rest);
        assert(text.push(ch) + rest =~= text + tag);
    }
}

/// A literal without dot and underscore is read whole: where, behind its
/// first digit and its radix prefix, the digits `word` and the tag `tag`
/// stand in the source and the literal ends behind them, the token is what
/// `number_literal` makes of the first digit with `word`, and of `tag`, in
/// the radix of the prefix.
pub proof fn lemma_literal_is_read_whole(
    chars: Seq<char>,
    c: Cursor,
    start_col: int,
    first: char,
    word: Seq<char>,
    tag: Seq<char>,
)
    requires
        0 <= c.current,
        is_digit_of(first, 10),
        ({
            let radix = radix_of(first, next_char(chars, c));
            let start = if radix != 10 {
                c.current + 1
            } else {
                c.current
            };
            &&& stands_at(chars, start, word + tag)
            &&& is_digit_word(word, radix)
            &&& is_tag_word(tag, radix)
            &&& forall|i: int| 0 <= i < tag.len() ==> #[trigger] tag[i] != '\n'
            &&& literal_ends(chars, start + word.len() + tag.len(), radix)
        }),
    ensures
        ({
            let radix = radix_of(first, next_char(chars, c));
            let prefix: int = if radix != 10 {
                1
            } else {
                0
            };
            let end = moved(c, prefix + word.len() + tag.len());
            let pos = token_pos(chars, end, start_col);
            scan_number(chars, c, start_col, first) == (Scan {
                outcome: match number_literal(seq![first] + word, tag, radix, false) {
                    Ok(literal) => Ok(Lexeme { pos, kind: TokenKind::Literal(literal) }),
                    Err(msg) => Err(Diagnostic { pos, msg }),
                },
                cursor: end,
            })
        }),
{
    let radix = radix_of(first, next_char(chars, c));
    let after_prefix = if radix != 10 {
        advance(chars, c)
    } else {
        c
    };
    let whole = word + tag;
    let start = after_prefix.current;
    assert(chars.subrange(start, start + word.len()) =~= word) by {
        assert(chars.subrange(start, start + whole.len()).subrange(0, word.len() as int)
            =~= word);
    }
    assert(chars.subrange(start + word.len(), start + word.len() + tag.len()) =~= tag) by {
        assert(chars.subrange(start, start + whole.len()).subrange(
            word.len() as int,
            whole.len() as int,
        ) =~= tag);
    }
    if tag.len() > 0 {
        assert(chars[start + word.len()] == tag[0]);
    }
    lemma_scan_digit_word(chars, radix, after_prefix, false, seq![first], word);
    let digits = scan_digits(chars, radix, after_prefix, first == '.', seq![first]);
    lemma_scan_tag_word(chars, digits.cursor, Seq::empty(), tag);
    assert(Seq::<char>::empty() + tag =~= tag);
}

/// A float tag behind a radix prefix is a lexical error, whatever the radix:
/// behind `0b` and `0o` the tag is read and refused for the radix; behind
/// `0x` its `f` counts as a digit, and what is left of it is no tag.
pub proof fn lemma_float_tag_behind_prefix(
    chars: Seq<char>,
    c: Cursor,
    start_col: int,
    first: char,
    word: Seq<char>,
    tag: Seq<char>,
)
    requires
        0 <= c.current,
        is_digit_of(first, 10),
        radix_of(first, next_char(chars, c)) != 10,
        tag == "float32"@ || tag == "float64"@,
        forall|i: int| 0 <= i < tag.len() ==> is_alphanumeric(#[trigger] tag[i]),
        stands_at(chars, c.current + 1, word + tag),
        is_digit_word(word, radix_of(first, next_char(chars, c))),
        literal_ends(
            chars,
            c.current + 1 + word.len() + tag.len(),
            radix_of(first, next_char(chars, c)),
        ),
    ensures
        scan_number(chars, c, start_col, first).outcome is Err,
{
    reveal_strlit("float32");
    reveal_strlit("float64");
    reveal_strlit("int8");
    reveal_strlit("uint8");
    reveal_strlit("int16");
    reveal_strlit("uint16");
    reveal_strlit("int32");
    reveal_strlit("uint32");
    reveal_strlit("int64");
    reveal_strlit("uint64");
    reveal_strlit("int128");
    reveal_strlit("uint128");
    let radix = radix_of(first, next_char(chars, c));
    assert(tag.len() == 7);
    assert(tag[0] == 'f' && tag[1] == 'l' && tag[2] == 'o' && tag[3] == 'a' && tag[4] == 't');
    assert(tag[5] == '3' || tag[5] == '6');
    assert(tag[6] == '2' || tag[6] == '4');
    if radix == 16 {
        let digits = word.push('f');
        let rest = tag.drop_first();
        assert(digits + rest =~= word + tag);
        assert forall|i: int| 0 <= i < digits.len() implies is_literal_digit(
            #[trigger] digits[i],
            radix,
        ) by {
            if i < word.len() {
                assert(digits[i] == word[i]);
            }
        }
        assert forall|i: int| 0 <= i < rest.len() implies is_alphanumeric(#[trigger] rest[i])
            && rest[i] != '_' && rest[i] != '.' && rest[i] != '\n' by {
            assert(rest[i] == tag[i + 1]);
        }
        assert(rest[0] == 'l');
        lemma_literal_is_read_whole(chars, c, start_col, first, digits, rest);
        assert(rest.len() == 6 && rest[0] == 'l');
        assert(crate::lexer::number::tag_of(rest) is None);
    } else {
        lemma_literal_is_read_whole(chars, c, start_col, first, word, tag);
        crate::lexer::number::lemma_radix_prefix_excludes_float(
            seq![first] + word,
            tag,
            radix,
            false,
        );
    }
}

/// Advancing keeps a cursor within the source and never moves it back.
proof fn lemma_advance(chars: Seq<char>, c: Cursor)
    requires
        c.wf(chars),
    ensures
        advance(chars, c).wf(chars),
        advance(chars, c).current >= c.current,
        c.current < chars.len() ==> advance(chars, c).current == c.current + 1,
{
}

/// Skipping whitespace keeps a cursor within the source and never moves it back.
proof fn lemma_skip_whitespace(chars: Seq<char>, c: Cursor)
    requires
        c.wf(chars),
    ensures
        skip_whitespace(chars, c).wf(chars),
        skip_whitespace(chars, c).current >= c.current,
    decreases chars.len() - c.current,
{
    if 0 <= c.current < chars.len() && chars[c.current] != '\0' && is_whitespace(
        chars[c.current],
    ) {
        lemma_skip_whitespace(chars, advance(chars, c));
    }
}

/// Recovery keeps a cursor within the source and never moves it back.
proof fn lemma_synchronize(chars: Seq<char>, c: Cursor)
    requires
        c.wf(chars),
    ensures
        synchronize(chars, c).wf(chars),
        synchronize(chars, c).current >= c.current,
    decreases chars.len() - c.current,
{
    if 0 <= c.current < chars.len() && chars[c.current] != '\0' && !is_whitespace(
        chars[c.current],
    ) {
        lemma_synchronize(chars, advance(chars, c));
    }
}

/// Reading digits keeps a cursor within the source and never moves it back.
proof fn lemma_scan_digits(
    chars: Seq<char>,
    radix: int,
    c: Cursor,
    found_dot: bool,
    text: Seq<char>,
)
    requires
        c.wf(chars),
    ensures
        scan_digits(chars, radix, c, found_dot, text).cursor.wf(chars),
        scan_digits(chars, radix, c, found_dot, text).cursor.current >= c.current,
    decreases chars.len() - c.current,
{
    if 0 <= c.current < chars.len() {
        let ch = chars[c.current];
        if ch == '.' {
            if !found_dot {
                lemma_scan_digits(chars, radix, advance(chars, c), true, text.push(ch));
            }
        } else if ch == '_' {
            lemma_scan_digits(chars, radix, advance(chars, c), found_dot, text);
        } else if is_literal_digit(ch, radix) {
            lemma_scan_digits(chars, radix, advance(chars, c), found_dot, text.push(ch));
        }
    }
}

/// Reading a tag keeps a cursor within the source and never moves it back.
proof fn lemma_scan_tag(chars: Seq<char>, c: Cursor, text: Seq<char>)
    requires
        c.wf(chars),
    ensures
        scan_tag(chars, c, text).cursor.wf(chars),
        scan_tag(chars, c, text).cursor.current >= c.current,
    decreases chars.len() - c.current,
{
    if 0 <= c.current < chars.len() {
        let ch = chars[c.current];
        if ch == '_' {
            lemma_scan_tag(chars, advance(chars, c), text);
        } else if ch != '.' && is_alphanumeric(ch) {
            lemma_scan_tag(chars, advance(chars, c), text.push(ch));
        }
    }
}

/// Scanning keeps the cursor within the source and never moves it back, and
/// every token but the end of the input takes at least one character.
pub proof fn lemma_scan_advances(chars: Seq<char>, c: Cursor)
    requires
        c.wf(chars),
    ensures
        scan(chars, c).cursor.wf(chars),
        scan(chars, c).cursor.current >= c.current,
        scan(chars, c).outcome matches Ok(token) && !(token.kind is EOF) ==> scan(
            chars,
            c,
        ).cursor.current > c.current,
{
    lemma_skip_whitespace(chars, c);
    let begin = skip_whitespace(chars, c);
    let ch = next_char(chars, begin);
    let after = advance(chars, begin);
    lemma_advance(chars, begin);
    lemma_advance(chars, after);
    if ch == '.' || is_digit_of(ch, 10) {
        let radix = radix_of(ch, next_char(chars, after));
        let after_prefix = if radix != 10 {
            advance(chars, after)
        } else {
            after
        };
        lemma_scan_digits(chars, radix, after_prefix, ch == '.', seq![ch]);
        let digits = scan_digits(chars, radix, after_prefix, ch == '.', seq![ch]);
        lemma_scan_tag(chars, digits.cursor, Seq::empty());
    }
    lemma_synchronize(chars, scan_token(chars, c).cursor);
}

/// Requests to the lexer keep its state well-formed and never add to what is
/// left to read; consuming any token but the end of the input takes from it.
pub proof fn lemma_pull_progress(state: LexerState, debug: bool)
    requires
        state.wf(),
    ensures
        state.peek().state.wf(),
        state.get(debug).state.wf(),
        state.peek().state.remaining() <= state.remaining(),
        state.get(debug).state.remaining() <= state.remaining(),
        state.get(debug).state.buffered is None,
        state.get(debug).outcome matches Ok(token) && !(token.kind is EOF) ==> state.get(
            debug,
        ).state.remaining() < state.remaining(),
{
    lemma_scan_advances(state.chars, state.cursor);
}

/// Behind the whitespace that was skipped there is no more to skip.
proof fn lemma_skip_settles(chars: Seq<char>, c: Cursor)
    ensures
        skip_whitespace(chars, skip_whitespace(chars, c)) == skip_whitespace(chars, c),
    decreases chars.len() - c.current,
{
    if 0 <= c.current < chars.len() && chars[c.current] != '\0' && is_whitespace(
        chars[c.current],
    ) {
        lemma_skip_settles(chars, advance(chars, c));
    }
}

/// The end of the input is stable: once a request has yielded the
/// end-of-input token, every further request yields the same token and the
/// cursor stays. This holds at the end of the text and at a NUL character.
pub proof fn lemma_eof_is_stable(state: LexerState, debug: bool, again: bool)
    requires
        state.wf(),
        state.buffered is None,
        state.get(debug).outcome matches Ok(token) && token.kind is EOF,
    ensures
        state.get(debug).state.buffered is None,
        state.get(debug).state.get(again).outcome == state.get(debug).outcome,
        state.get(debug).state.peek().outcome == state.get(debug).outcome,
        state.get(debug).state.get(again).state.cursor == state.get(debug).state.cursor,
        state.get(debug).state.peek().state.cursor == state.get(debug).state.cursor,
{
    lemma_skip_settles(state.chars, state.cursor);
}

/// At the end of the text the next token is the end of the input, placed
/// one column beyond the text.
pub proof fn lemma_eof_at_the_end(state: LexerState, debug: bool)
    requires
        state.wf(),
        state.buffered is None,
        state.cursor.current == state.chars.len(),
    ensures
        state.get(debug).outcome == Ok::<Lexeme, Diagnostic>(
            Lexeme {
                pos: token_pos(state.chars, state.cursor, state.cursor.col),
                kind: TokenKind::EOF,
            },
        ),
        state.get(debug).state.cursor == state.cursor,
{
}

/// The lexer of one source text.
pub struct Lexer {
    chars: Vec<char>,
    line: usize,
    current_col: usize,
    current: usize,
    buf_token: Option<Token>,
    echo: Vec<Token>,
}

impl View for Lexer {
    type V = LexerState;

    closed spec fn view(&self) -> LexerState {
        LexerState {
            chars: self.chars@,
            cursor: self.cursor(),
            buffered: match self.buf_token {
                Some(token) => Some(token@),
                None => None,
            },
            echo: self.echo@.map_values(|token: Token| token@),
        }
    }
}

impl Lexer {
    spec fn cursor(&self) -> Cursor {
        Cursor { current: self.current as int, line: self.line as int, col: self.current_col as int }
    }

    /// The lexer's state is well-formed.
    pub open spec fn wf(&self) -> bool {
        self@.wf()
    }

    /// Everything but the cursor is as in `before`.
    spec fn moved_from(&self, before: &Lexer) -> bool {
        &&& self.chars == before.chars
        &&& self.buf_token == before.buf_token
        &&& self.echo == before.echo
    }

    /// The state of a lexer at the start of `source`: line 1, column 1,
    /// nothing buffered.
    pub open spec fn spec_new(source: Seq<char>) -> LexerState {
        LexerState {
            chars: source,
            cursor: Cursor { current: 0, line: 1, col: 1 },
            buffered: None,
            echo: Seq::empty(),
        }
    }

    /// A lexer at the start of `source`.
    #[must_use]
    pub fn new(source: &String) -> (lexer: Lexer)
        requires
            source@.len() + 2 <= usize::MAX,
        ensures
            lexer.wf(),
            lexer@ == Self::spec_new(source@),
    {
        let lexer = Lexer {
            chars: chars_of(source.as_str()),
            line: 1,
            current_col: 1,
            current: 0,
            buf_token: None,
            echo: Vec::new(),
        };
        assert(lexer@.echo =~= Seq::empty());
        lexer
    }

    /// The next token, which stays in place for the next request.
    pub fn peek_token(&mut self, _ctx: &LexerContext) -> (outcome: LexicalResult<Token>)
        requires
            old(self).wf(),
        ensures
            final(self).wf(),
            outcome_view(outcome) == old(self)@.peek().outcome,
            final(self)@ == old(self)@.peek().state,
    {
        if let Some(token) = &self.buf_token {
            return Ok(token.duplicate());
        }
        let token = self.scan()?;
        let copy = token.duplicate();
        self.buf_token = Some(token);
        Ok(copy)
    }

    /// The next token, consumed. In debug mode it is also kept for echoing.
    pub fn get_token(&mut self, ctx: &LexerContext) -> (outcome: LexicalResult<Token>)
        requires
            old(self).wf(),
        ensures
            final(self).wf(),
            outcome_view(outcome) == old(self)@.get(ctx.debug_print_token).outcome,
            final(self)@ == old(self)@.get(ctx.debug_print_token).state,
    {
        let token = match self.buf_token.take() {
            Some(token) => token,
            None => self.scan()?,
        };
        if ctx.debug_print_token {
            let ghost before = self.echo@.map_values(|token: Token| token@);
            self.echo.push(token.duplicate());
            assert(self.echo@.map_values(|token: Token| token@) =~= before.push(token@));
        }
        Ok(token)
    }

    /// Hands out the tokens consumed in debug mode since the last call, in
    /// the order of their consumption.
    pub fn take_echo(&mut self) -> (echo: Vec<Token>)
        requires
            old(self).wf(),
        ensures
            final(self).wf(),
            echo@.map_values(|token: Token| token@) == old(self)@.echo,
            final(self)@ == (LexerState { echo: Seq::empty(), ..old(self)@ }),
    {
        let mut echo = Vec::new();
        std::mem::swap(&mut echo, &mut self.echo);
        assert(self@.echo =~= Seq::empty());
        echo
    }

    fn scan(&mut self) -> (outcome: LexicalResult<Token>)
        requires
            old(self).wf(),
        ensures
            final(self).wf(),
            final(self).moved_from(old(self)),
            outcome_view(outcome) == scan(old(self).chars@, old(self).cursor()).outcome,
            final(self).cursor() == scan(old(self).chars@, old(self).cursor()).cursor,
    {
        match self.scan_token() {
            Ok(token) => Ok(token),
            Err(error) => {
                self.synchronize();
                Err(error)
            },
        }
    }

    fn scan_token(&mut self) -> (outcome: LexicalResult<Token>)
        requires
            old(self).wf(),
        ensures
            final(self).wf(),
            final(self).moved_from(old(self)),
            outcome_view(outcome) == scan_token(old(self).chars@, old(self).cursor()).outcome,
            final(self).cursor() == scan_token(old(self).chars@, old(self).cursor()).cursor,
    {
        self.skip_whitespace();
        let start = self.current;
        let start_col = self.current_col;
        let ch = self.advance();
        if ch == '\0' {
            let token = self.make_token(start_col, TokenType::EOF);
            self.current = start;
            self.current_col = start_col;
            Ok(token)
        } else if ch == '+' {
            Ok(self.make_token(start_col, TokenType::Operator(TokenOperator::Plus)))
        } else if ch == '-' {
            Ok(self.make_token(start_col, TokenType::Operator(TokenOperator::Minus)))
        } else if ch == '*' {
            let ope = if self.match_advance('*') {
                TokenOperator::Power
            } else {
                TokenOperator::Multiply
            };
            Ok(self.make_token(start_col, TokenType::Operator(ope)))
        } else if ch == '/' {
            Ok(self.make_token(start_col, TokenType::Operator(TokenOperator::Divide)))
        } else if ch == '(' {
            Ok(self.make_token(start_col, TokenType::Paren(TokenParen::LeftParen)))
        } else if ch == ')' {
            Ok(self.make_token(start_col, TokenType::Paren(TokenParen::RightParen)))
        } else if ch == '.' || digit_of(ch) < 10 {
            self.scan_number(start_col, ch)
        } else {
            Err(LexicalError::new(self.get_current_pos(), "Invalid character.".to_owned()))
        }
    }

    fn scan_number(&mut self, start_col: usize, first: char) -> (outcome: LexicalResult<Token>)
        requires
            old(self).wf(),
        ensures
            final(self).wf(),
            final(self).moved_from(old(self)),
            outcome_view(outcome) == scan_number(
                old(self).chars@,
                old(self).cursor(),
                start_col as int,
                first,
            ).outcome,
            final(self).cursor() == scan_number(
                old(self).chars@,
                old(self).cursor(),
                start_col as int,
                first,
            ).cursor,
    {
        let second = self.peek_next();
        let radix: u32 = if first == '0' && second == 'b' {
            2
        } else if first == '0' && second == 'o' {
            8
        } else if first == '0' && second == 'x' {
            16
        } else {
            10
        };
        let ghost chars = self.chars@;
        let ghost origin = self.cursor();
        if radix != 10 {
            self.advance();
        }
        let ghost after_prefix = self.cursor();
        let mut found_dot = first == '.';
        let mut number: Vec<char> = Vec::new();
        number.push(first);
        assert(number@ =~= seq![first]);
        let ghost digits = scan_digits(chars, radix as int, after_prefix, first == '.', seq![first]);
        loop
            invariant
                self.wf(),
                self.moved_from(old(self)),
                chars == old(self).chars@,
                origin == old(self).cursor(),
                radix == radix_of(first, next_char(chars, origin)),
                after_prefix == if radix != 10 {
                    advance(chars, origin)
                } else {
                    origin
                },
                digits == scan_digits(chars, radix as int, after_prefix, first == '.', seq![first]),
                number@.len() >= 1,
                scan_digits(chars, radix as int, self.cursor(), found_dot, number@) == digits,
            ensures
                digits == (DigitScan {
                    cursor: self.cursor(),
                    found_dot,
                    text: number@,
                    second_dot: false,
                }),
            decreases self.chars.len() - self.current,
        {
            if self.current >= self.chars.len() {
                break ;
            }
            let ch = self.chars[self.current];
            if ch == '.' {
                if found_dot {
                    return Err(
                        LexicalError::new(self.get_current_pos(), "Unexpected dot.".to_owned()),
                    );
                }
                found_dot = true;
                number.push(ch);
            } else if ch == '_' {
            } else if digit_of(ch) < 10 || digit_of(ch) < radix {
                number.push(ch);
            } else {
                break ;
            }
            self.advance();
        }
        let mut tag: Vec<char> = Vec::new();
        let ghost tagged = scan_tag(chars, digits.cursor, Seq::empty());
        assert(tag@ =~= Seq::empty());
        loop
            invariant
                self.wf(),
                self.moved_from(old(self)),
                chars == old(self).chars@,
                origin == old(self).cursor(),
                radix == radix_of(first, next_char(chars, origin)),
                after_prefix == if radix != 10 {
                    advance(chars, origin)
                } else {
                    origin
                },
                digits == scan_digits(chars, radix as int, after_prefix, first == '.', seq![first]),
                !digits.second_dot,
                tagged == scan_tag(chars, digits.cursor, Seq::empty()),
                scan_tag(chars, self.cursor(), tag@) == tagged,
            ensures
                tagged == (TagScan { cursor: self.cursor(), text: tag@, dot: false }),
            decreases self.chars.len() - self.current,
        {
            if self.current >= self.chars.len() {
                break ;
            }
            let ch = self.chars[self.current];
            if ch == '_' {
            } else if ch == '.' {
                return Err(
                    LexicalError::new(self.get_current_pos(), "Unexpected dot.".to_owned()),
                );
            } else if char_is_alphanumeric(ch) {
                tag.push(ch);
            } else {
                break ;
            }
            self.advance();
        }
        assert(number@.len() >= 1);
        if found_dot {
            if number.len() == 1 {
                return Err(
                    LexicalError::new(self.get_current_pos(), "Invalid syntax.".to_owned()),
                );
            } else if number[0] == '.' {
                number.insert(0, '0');
            } else if number[number.len() - 1] == '.' {
                number.push('0');
            }
        }
        match classify_number(&number, &tag, radix, found_dot) {
            Ok(literal) => Ok(self.make_token(start_col, TokenType::Literal(literal))),
            Err(msg) => Err(LexicalError::new(self.get_pos(start_col), msg)),
        }
    }

    fn make_token(&self, start_col: usize, token_type: TokenType) -> (token: Token)
        requires
            self.wf(),
        ensures
            token.pos == token_pos(self.chars@, self.cursor(), start_col as int),
            token.token_type == token_type,
    {
        Token::new(self.get_pos(start_col), token_type)
    }

    fn skip_whitespace(&mut self)
        requires
            old(self).wf(),
        ensures
            final(self).wf(),
            final(self).moved_from(old(self)),
            final(self).cursor() == skip_whitespace(old(self).chars@, old(self).cursor()),
    {
        loop
            invariant
                self.wf(),
                self.moved_from(old(self)),
                skip_whitespace(self.chars@, self.cursor()) == skip_whitespace(
                    old(self).chars@,
                    old(self).cursor(),
                ),
            ensures
                self.cursor() == skip_whitespace(old(self).chars@, old(self).cursor()),
            decreases self.chars.len() - self.current,
        {
            if self.current >= self.chars.len() {
                break ;
            }
            let ch = self.chars[self.current];
            if ch == '\0' || !char_is_whitespace(ch) {
                break ;
            }
            self.advance();
        }
    }

    #[must_use]
    fn peek_next(&self) -> (ch: char)
        ensures
            ch == next_char(self.chars@, self.cursor()),
    {
        if self.current < self.chars.len() {
            self.chars[self.current]
        } else {
            '\0'
        }
    }

    fn advance(&mut self) -> (ch: char)
        requires
            old(self).wf(),
        ensures
            final(self).wf(),
            final(self).moved_from(old(self)),
            ch == next_char(old(self).chars@, old(self).cursor()),
            final(self).cursor() == advance(old(self).chars@, old(self).cursor()),
    {
        if self.current < self.chars.len() {
            let ch = self.chars[self.current];
            self.current += 1;
            self.current_col += 1;
            if ch == '\n' {
                self.line += 1;
                self.current_col = 1;
            }
            ch
        } else {
            '\0'
        }
    }

    #[must_use]
    fn match_advance(&mut self, ch: char) -> (matched: bool)
        requires
            old(self).wf(),
        ensures
            final(self).wf(),
            final(self).moved_from(old(self)),
            matched == (next_char(old(self).chars@, old(self).cursor()) == ch),
            final(self).cursor() == if matched {
                advance(old(self).chars@, old(self).cursor())
            } else {
                old(self).cursor()
            },
    {
        if self.peek_next() == ch {
            self.advance();
            true
        } else {
            false
        }
    }

    fn get_pos(&self, start_col: usize) -> (pos: Position)
        requires
            self.wf(),
        ensures
            pos == token_pos(self.chars@, self.cursor(), start_col as int),
    {
        if self.current == self.chars.len() {
            Position {
                start_line: self.line,
                start_col: self.current_col + 1,
                end_line: self.line,
                end_col: self.current_col + 1,
            }
        } else {
            Position {
                start_line: self.line,
                start_col,
                end_line: self.line,
                end_col: self.current_col - 1,
            }
        }
    }

    fn get_current_pos(&self) -> (pos: Position)
        requires
            self.wf(),
        ensures
            pos == cursor_pos(self.chars@, self.cursor()),
    {
        if self.current == self.chars.len() {
            Position {
                start_line: self.line,
                start_col: self.current_col + 1,
                end_line: self.line,
                end_col: self.current_col + 1,
            }
        } else {
            Position {
                start_line: self.line,
                start_col: self.current_col - 1,
                end_line: self.line,
                end_col: self.current_col - 1,
            }
        }
    }

    fn synchronize(&mut self)
        requires
            old(self).wf(),
        ensures
            final(self).wf(),
            final(self).moved_from(old(self)),
            final(self).cursor() == synchronize(old(self).chars@, old(self).cursor()),
    {
        loop
            invariant
                self.wf(),
                self.moved_from(old(self)),
                synchronize(self.chars@, self.cursor()) == synchronize(
                    old(self).chars@,
                    old(self).cursor(),
                ),
            ensures
                self.cursor() == synchronize(old(self).chars@, old(self).cursor()),
            decreases self.chars.len() - self.current,
        {
            if self.current >= self.chars.len() {
                break ;
            }
            let ch = self.chars[self.current];
            if ch == '\0' || char_is_whitespace(ch) {
                break ;
            }
            self.advance();
        }
    }
}

} // verus!

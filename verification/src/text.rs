//! Characters and strings: the character classes the lexer asks about, and
//! conversions between strings and vectors of characters.

use vstd::prelude::*;
use vstd::std_specs::iter::IteratorSpec;

verus! {

broadcast use vstd::string::group_string_axioms;

/// Whether std counts `c` as whitespace: the result of `char::is_whitespace`.
pub uninterp spec fn is_whitespace(c: char) -> bool;

/// Whether std counts `c` as a letter or a number: the result of
/// `char::is_alphanumeric`.
pub uninterp spec fn is_alphanumeric(c: char) -> bool;

/// Calls `char::is_whitespace`, which tests the Unicode property White_Space.
/// The answer depends on the character alone and is named `is_whitespace`.
#[verifier::external_body]
pub(crate) fn char_is_whitespace(c: char) -> (answer: bool)
    ensures
        answer == is_whitespace(c),
{
    c.is_whitespace()
}

/// Calls `char::is_alphanumeric`, which tests the Unicode properties Alphabetic
/// and the numeric general categories. The answer depends on the character
/// alone and is named `is_alphanumeric`.
#[verifier::external_body]
pub(crate) fn char_is_alphanumeric(c: char) -> (answer: bool)
    ensures
        answer == is_alphanumeric(c),
{
    c.is_alphanumeric()
}

/// Calls `String::push`, which appends one character to the end of the string.
#[verifier::external_body]
pub(crate) fn push_char(text: &mut String, c: char)
    ensures
        final(text)@ == old(text)@.push(c),
{
    text.push(c)
}

/// The characters of `text`, in order.
pub fn chars_of(text: &str) -> (chars: Vec<char>)
    ensures
        chars@ == text@,
{
    let mut chars: Vec<char> = Vec::new();
    let mut iter = text.chars();
    loop
        invariant
            iter.obeys_prophetic_iter_laws(),
            iter.decrease() is Some,
            chars@ + iter.remaining() == text@,
        decreases iter.decrease()->0,
    {
        let ghost before = iter.remaining();
        match iter.next() {
            Some(c) => {
                chars.push(c);
                assert(chars@ + iter.remaining() =~= text@) by {
                    assert(before =~= seq![c] + iter.remaining());
                }
            },
            None => {
                assert(chars@ =~= text@);
                return chars;
            },
        }
    }
}

/// The string made of `chars`, in order.
pub fn string_of(chars: &Vec<char>) -> (text: String)
    ensures
        text@ == chars@,
{
    let mut text = String::new();
    let mut i: usize = 0;
    while i < chars.len()
        invariant
            i <= chars.len(),
            text@ == chars@.take(i as int),
        decreases chars.len() - i,
    {
        push_char(&mut text, chars[i]);
        assert(chars@.take(i + 1) =~= chars@.take(i as int).push(chars@[i as int]));
        i += 1;
    }
    assert(chars@.take(chars.len() as int) =~= chars@);
    text
}

/// Whether `chars` spells `text`.
pub fn spells(chars: &Vec<char>, text: &str) -> (same: bool)
    ensures
        same == (chars@ == text@),
{
    let other = chars_of(text);
    if other.len() != chars.len() {
        return false;
    }
    let mut i: usize = 0;
    while i < chars.len()
        invariant
            i <= chars.len(),
            other.len() == chars.len(),
            other@ == text@,
            chars@.take(i as int) == other@.take(i as int),
        decreases chars.len() - i,
    {
        if chars[i] != other[i] {
            return false;
        }
        assert(chars@.take(i + 1) =~= chars@.take(i as int).push(chars@[i as int]));
        assert(other@.take(i + 1) =~= other@.take(i as int).push(other@[i as int]));
        i += 1;
    }
    assert(chars@.take(chars.len() as int) =~= chars@);
    assert(other@.take(other.len() as int) =~= other@);
    true
}

/// `left` followed by `right`.
pub fn join(left: &str, right: &str) -> (text: String)
    ensures
        text@ == left@ + right@,
{
    let mut text = left.to_owned();
    text.append(right);
    text
}

/// The decimal digit of a number below ten.
pub open spec fn digit_char(digit: nat) -> char {
    if digit == 0 {
        '0'
    } else if digit == 1 {
        '1'
    } else if digit == 2 {
        '2'
    } else if digit == 3 {
        '3'
    } else if digit == 4 {
        '4'
    } else if digit == 5 {
        '5'
    } else if digit == 6 {
        '6'
    } else if digit == 7 {
        '7'
    } else if digit == 8 {
        '8'
    } else {
        '9'
    }
}

/// A natural number in decimal, without leading zeros.
pub open spec fn decimal_text(n: nat) -> Seq<char>
    decreases n,
{
    if n < 10 {
        seq![digit_char(n)]
    } else {
        decimal_text(n / 10).push(digit_char(n % 10))
    }
}

/// An integer in decimal, with a minus sign where it is negative.
pub open spec fn integer_text(n: int) -> Seq<char> {
    if n < 0 {
        seq!['-'] + decimal_text((-n) as nat)
    } else {
        decimal_text(n as nat)
    }
}

/// `n` times the character `c`.
pub open spec fn repeated(c: char, n: nat) -> Seq<char> {
    Seq::new(n, |i: int| c)
}

fn digit_to_char(digit: u128) -> (c: char)
    requires
        digit < 10,
    ensures
        c == digit_char(digit as nat),
{
    if digit == 0 {
        '0'
    } else if digit == 1 {
        '1'
    } else if digit == 2 {
        '2'
    } else if digit == 3 {
        '3'
    } else if digit == 4 {
        '4'
    } else if digit == 5 {
        '5'
    } else if digit == 6 {
        '6'
    } else if digit == 7 {
        '7'
    } else if digit == 8 {
        '8'
    } else {
        '9'
    }
}

/// Appends `n` in decimal to `text`.
pub fn push_decimal(text: &mut String, n: u128)
    ensures
        final(text)@ == old(text)@ + decimal_text(n as nat),
    decreases n,
{
    if n >= 10 {
        push_decimal(text, n / 10);
    }
    push_char(text, digit_to_char(n % 10));
    assert(text@ =~= old(text)@ + decimal_text(n as nat));
}

/// Appends `n` in decimal to `text`, with a minus sign where it is negative.
pub fn push_integer(text: &mut String, n: i128)
    ensures
        final(text)@ == old(text)@ + integer_text(n as int),
{
    if n < 0 {
        push_char(text, '-');
        let magnitude: u128 = (-(n + 1)) as u128 + 1;
        push_decimal(text, magnitude);
        assert(text@ =~= old(text)@ + integer_text(n as int));
    } else {
        push_decimal(text, n as u128);
    }
}

/// Appends `n` times the character `c` to `text`.
pub fn push_repeated(text: &mut String, c: char, n: usize)
    ensures
        final(text)@ == old(text)@ + repeated(c, n as nat),
{
    let mut i: usize = 0;
    assert(text@ =~= old(text)@ + repeated(c, 0));
    while i < n
        invariant
            i <= n,
            text@ == old(text)@ + repeated(c, i as nat),
        decreases n - i,
    {
        push_char(text, c);
        i += 1;
        assert(text@ =~= old(text)@ + repeated(c, i as nat));
    }
}

/// The index of the first newline of `text` at or behind `from`, the length
/// of `text` where there is none.
pub open spec fn line_end(text: Seq<char>, from: int) -> int
    decreases text.len() - from,
{
    if from < 0 || from >= text.len() {
        text.len() as int
    } else if text[from] == '\n' {
        from
    } else {
        line_end(text, from + 1)
    }
}

/// A line without the carriage return that ended it before the newline.
pub open spec fn without_return(line: Seq<char>) -> Seq<char> {
    if line.len() > 0 && line.last() == '\r' {
        line.drop_last()
    } else {
        line
    }
}

/// The lines of `text` from index `from` on. A line ends with a newline or
/// with a carriage return and a newline, neither of which belongs to it; the
/// last line needs no line ending, and an empty rest is no line.
pub open spec fn lines_from(text: Seq<char>, from: int) -> Seq<Seq<char>>
    decreases text.len() - from,
{
    if from < 0 || from >= text.len() {
        Seq::empty()
    } else {
        let end = line_end(text, from);
        if end >= text.len() {
            seq![text.subrange(from, text.len() as int)]
        } else if end < from {
            Seq::empty()
        } else {
            seq![without_return(text.subrange(from, end))] + lines_from(text, end + 1)
        }
    }
}

/// The lines of `text`.
pub open spec fn lines_of(text: Seq<char>) -> Seq<Seq<char>> {
    lines_from(text, 0)
}

/// The index of the first character of `text` at or behind `from` that is
/// no whitespace, the length of `text` where there is none.
pub open spec fn content_start(text: Seq<char>, from: int) -> int
    decreases text.len() - from,
{
    if from < 0 || from >= text.len() {
        text.len() as int
    } else if !is_whitespace(text[from]) {
        from
    } else {
        content_start(text, from + 1)
    }
}

/// The index behind the last character of `text` before `to` that is no
/// whitespace, `floor` where there is none behind `floor`.
pub open spec fn content_end(text: Seq<char>, to: int, floor: int) -> int
    decreases to,
{
    if to <= floor || to <= 0 || to > text.len() {
        floor
    } else if !is_whitespace(text[to - 1]) {
        to
    } else {
        content_end(text, to - 1, floor)
    }
}

/// `text` without the whitespace at its start and at its end.
pub open spec fn trimmed(text: Seq<char>) -> Seq<char> {
    let start = content_start(text, 0);
    text.subrange(start, content_end(text, text.len() as int, start))
}

/// The lines of `text`.
pub fn split_lines(text: &Vec<char>) -> (lines: Vec<Vec<char>>)
    ensures
        lines@.map_values(|line: Vec<char>| line@) == lines_of(text@),
{
    let mut lines: Vec<Vec<char>> = Vec::new();
    let mut from: usize = 0;
    assert(lines@.map_values(|line: Vec<char>| line@) =~= Seq::empty());
    while from < text.len()
        invariant
            from <= text.len(),
            lines@.map_values(|line: Vec<char>| line@) + lines_from(text@, from as int)
                == lines_of(text@),
        decreases text.len() - from,
    {
        let ghost before = lines@.map_values(|line: Vec<char>| line@);
        let mut line: Vec<char> = Vec::new();
        let mut end: usize = from;
        assert(line@ =~= text@.subrange(from as int, end as int));
        while end < text.len() && text[end] != '\n'
            invariant
                from <= end <= text.len(),
                line@ == text@.subrange(from as int, end as int),
                line_end(text@, end as int) == line_end(text@, from as int),
            decreases text.len() - end,
        {
            line.push(text[end]);
            end += 1;
            assert(line@ =~= text@.subrange(from as int, end as int));
        }
        if end < text.len() {
            if line.len() > 0 && line[line.len() - 1] == '\r' {
                line.pop();
                assert(line@ =~= without_return(text@.subrange(from as int, end as int)));
            }
            lines.push(line);
            assert(lines@.map_values(|line: Vec<char>| line@) =~= before.push(
                without_return(text@.subrange(from as int, end as int)),
            ));
            from = end + 1;
        } else {
            lines.push(line);
            assert(lines@.map_values(|line: Vec<char>| line@) =~= before.push(
                text@.subrange(from as int, text@.len() as int),
            ));
            from = end;
        }
    }
    assert(lines@.map_values(|line: Vec<char>| line@) + Seq::<Seq<char>>::empty()
        =~= lines@.map_values(|line: Vec<char>| line@));
    lines
}

/// `text` without the whitespace at its start and at its end.
pub fn trim(text: &Vec<char>) -> (content: String)
    ensures
        content@ == trimmed(text@),
{
    let mut start: usize = 0;
    while start < text.len() && char_is_whitespace(text[start])
        invariant
            start <= text.len(),
            content_start(text@, start as int) == content_start(text@, 0),
        decreases text.len() - start,
    {
        start += 1;
    }
    let mut end: usize = text.len();
    while end > start && char_is_whitespace(text[end - 1])
        invariant
            start <= end <= text.len(),
            content_end(text@, end as int, start as int) == content_end(
                text@,
                text@.len() as int,
                start as int,
            ),
        decreases end,
    {
        end -= 1;
    }
    let mut content = String::new();
    let mut i: usize = start;
    assert(content@ =~= text@.subrange(start as int, i as int));
    while i < end
        invariant
            start <= i <= end <= text.len(),
            content@ == text@.subrange(start as int, i as int),
        decreases end - i,
    {
        push_char(&mut content, text[i]);
        i += 1;
        assert(content@ =~= text@.subrange(start as int, i as int));
    }
    content
}

/// Appends the characters of `more` to `out`.
pub fn append_chars(out: &mut Vec<char>, more: &Vec<char>)
    ensures
        final(out)@ == old(out)@ + more@,
{
    let mut i: usize = 0;
    assert(out@ =~= old(out)@ + more@.take(0));
    while i < more.len()
        invariant
            i <= more.len(),
            out@ == old(out)@ + more@.take(i as int),
        decreases more.len() - i,
    {
        out.push(more[i]);
        i += 1;
        assert(out@ =~= old(out)@ + more@.take(i as int));
    }
    assert(more@.take(more.len() as int) =~= more@);
}

} // verus!

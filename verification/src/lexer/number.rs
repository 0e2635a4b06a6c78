//! Numeric literals: digits in a radix, type tags, and what the two make together.

use crate::compiler_data::value::{Literal, ValueInteger};
use crate::lexer::token::{TokenFloat, TokenInteger, TokenLiteral};
use crate::text::{join, spells, string_of};
use vstd::prelude::*;

verus! {

/// The value of `c` as a digit: 0 to 9 for decimal digits, 10 to 35 for the
/// letters in either case, and 36, which no radix reaches, for anything else.
pub open spec fn digit_value(c: char) -> int {
    if '0' <= c && c <= '9' {
        c as int - '0' as int
    } else if 'a' <= c && c <= 'z' {
        c as int - 'a' as int + 10
    } else if 'A' <= c && c <= 'Z' {
        c as int - 'A' as int + 10
    } else {
        36
    }
}

/// Whether `c` is a digit of `radix`.
pub open spec fn is_digit_of(c: char, radix: int) -> bool {
    digit_value(c) < radix
}

/// The number that the digits of `text` spell in `radix`, most significant first.
pub open spec fn radix_value(text: Seq<char>, radix: int) -> int
    decreases text.len(),
{
    if text.len() == 0 {
        0
    } else {
        radix_value(text.drop_last(), radix) * radix + digit_value(text.last())
    }
}

/// The length of the longest prefix of `text` made of digits of `radix`.
pub open spec fn digit_run(text: Seq<char>, radix: int) -> int
    decreases text.len(),
{
    if text.len() == 0 || !is_digit_of(text.first(), radix) {
        0
    } else {
        1 + digit_run(text.drop_first(), radix)
    }
}

/// Why a digit string is no integer of the wanted type.
#[derive(Clone, Copy, Debug, PartialEq, Eq, Structural)]
pub enum IntegerFault {
    /// There is no digit at all.
    Empty,
    /// A character is no digit of the radix.
    InvalidDigit,
    /// The digits spell a number above the type's maximum.
    TooLarge,
}

/// What reading `text` in `radix` as a number of at most `max` gives. The
/// string is read from the left and the first failure counts: running over
/// `max` ahead of a bad digit is `TooLarge`, a bad digit met first is
/// `InvalidDigit`.
pub open spec fn read_digits(text: Seq<char>, radix: int, max: int) -> Result<int, IntegerFault> {
    let run = digit_run(text, radix);
    if text.len() == 0 {
        Err(IntegerFault::Empty)
    } else if radix_value(text.take(run), radix) > max {
        Err(IntegerFault::TooLarge)
    } else if run < text.len() {
        Err(IntegerFault::InvalidDigit)
    } else {
        Ok(radix_value(text, radix))
    }
}

/// The digit run of a string covers a prefix of it, all of whose characters
/// are digits, and stops at the end or at a character that is none.
pub proof fn lemma_digit_run(text: Seq<char>, radix: int)
    ensures
        0 <= digit_run(text, radix) <= text.len(),
        forall|i: int| 0 <= i < digit_run(text, radix) ==> is_digit_of(#[trigger] text[i], radix),
        digit_run(text, radix) < text.len() ==> !is_digit_of(
            text[digit_run(text, radix)],
            radix,
        ),
    decreases text.len(),
{
    if text.len() == 0 || !is_digit_of(text.first(), radix) {
    } else {
        let rest = text.drop_first();
        lemma_digit_run(rest, radix);
        assert forall|i: int| 0 <= i < digit_run(text, radix) implies is_digit_of(
            #[trigger] text[i],
            radix,
        ) by {
            if i > 0 {
                assert(text[i] == rest[i - 1]);
            }
        }
        if digit_run(text, radix) < text.len() {
            assert(text[digit_run(text, radix)] == rest[digit_run(rest, radix)]);
        }
    }
}

/// A prefix of digits followed by a character that is none fixes the digit run.
pub proof fn lemma_digit_run_is(text: Seq<char>, radix: int, n: int)
    requires
        0 <= n <= text.len(),
        forall|i: int| 0 <= i < n ==> is_digit_of(#[trigger] text[i], radix),
        n < text.len() ==> !is_digit_of(text[n], radix),
    ensures
        digit_run(text, radix) == n,
    decreases text.len(),
{
    if n == 0 {
    } else {
        let rest = text.drop_first();
        assert(is_digit_of(text[0], radix));
        assert forall|i: int| 0 <= i < n - 1 implies is_digit_of(#[trigger] rest[i], radix) by {
            assert(rest[i] == text[i + 1]);
        }
        if n - 1 < rest.len() {
            assert(rest[n - 1] == text[n]);
        }
        lemma_digit_run_is(rest, radix, n - 1);
    }
}

/// Appending digits never makes the number smaller.
pub proof fn lemma_radix_value_grows(text: Seq<char>, radix: int, shorter: int, longer: int)
    requires
        radix >= 1,
        0 <= shorter <= longer <= text.len(),
    ensures
        0 <= radix_value(text.take(shorter), radix) <= radix_value(text.take(longer), radix),
    decreases longer,
{
    if longer == 0 {
        assert(text.take(0).len() == 0);
    } else {
        let whole = text.take(longer);
        assert(whole.drop_last() =~= text.take(longer - 1));
        assert(digit_value(whole.last()) >= 0);
        if shorter < longer {
            lemma_radix_value_grows(text, radix, shorter, longer - 1);
        } else {
            lemma_radix_value_grows(text, radix, 0, longer - 1);
        }
        let below = radix_value(text.take(longer - 1), radix);
        assert(below * radix >= below) by (nonlinear_arith)
            requires
                below >= 0,
                radix >= 1,
        ;
    }
}

/// The value of `c` as a digit.
pub fn digit_of(c: char) -> (value: u32)
    ensures
        value == digit_value(c),
{
    if c >= '0' && c <= '9' {
        c as u32 - '0' as u32
    } else if c >= 'a' && c <= 'z' {
        c as u32 - 'a' as u32 + 10
    } else if c >= 'A' && c <= 'Z' {
        c as u32 - 'A' as u32 + 10
    } else {
        36
    }
}

/// Reads `text` in `radix` as a number of at most `max`.
pub fn parse_digits(text: &Vec<char>, radix: u32, max: u128) -> (outcome: Result<
    u128,
    IntegerFault,
>)
    requires
        2 <= radix <= 36,
    ensures
        match outcome {
            Ok(value) => value <= max && read_digits(text@, radix as int, max as int) == Ok::<
                int,
                IntegerFault,
            >(value as int),
            Err(fault) => read_digits(text@, radix as int, max as int) == Err::<int, IntegerFault>(
                fault,
            ),
        },
{
    if text.len() == 0 {
        return Err(IntegerFault::Empty);
    }
    let mut value: u128 = 0;
    let mut i: usize = 0;
    while i < text.len()
        invariant
            2 <= radix <= 36,
            i <= text.len(),
            value == radix_value(text@.take(i as int), radix as int),
            value <= max,
            forall|j: int| 0 <= j < i ==> is_digit_of(#[trigger] text@[j], radix as int),
        decreases text.len() - i,
    {
        let digit = digit_of(text[i]);
        proof {
            let next = text@.take(i + 1);
            assert(next.drop_last() =~= text@.take(i as int));
            assert(next.last() == text@[i as int]);
        }
        if digit >= radix {
            proof {
                lemma_digit_run_is(text@, radix as int, i as int);
            }
            return Err(IntegerFault::InvalidDigit);
        }
        let ghost exact = value as int * radix as int + digit as int;
        let grown = match value.checked_mul(radix as u128) {
            Some(scaled) => scaled.checked_add(digit as u128),
            None => None,
        };
        let fits = match grown {
            Some(sum) => sum <= max,
            None => false,
        };
        if !fits {
            proof {
                assert(exact > max);
                lemma_digit_run(text@, radix as int);
                let run = digit_run(text@, radix as int);
                if run < i + 1 {
                    assert(is_digit_of(text@[run], radix as int));
                }
                lemma_radix_value_grows(text@, radix as int, i + 1, run);
            }
            return Err(IntegerFault::TooLarge);
        }
        value = grown.unwrap();
        i += 1;
    }
    proof {
        lemma_digit_run_is(text@, radix as int, text@.len() as int);
        assert(text@.take(text@.len() as int) =~= text@);
    }
    Ok(value)
}

/// The type that a literal's tag asks for.
#[derive(Clone, Copy, Debug, PartialEq, Eq, Structural)]
pub enum NumberTag {
    /// No tag: `int32`, or `float64` where the literal has a dot.
    Untagged,
    Int8,
    UInt8,
    Int16,
    UInt16,
    Int32,
    UInt32,
    Int64,
    UInt64,
    Int128,
    UInt128,
    Float32,
    Float64,
}

impl NumberTag {
    /// Whether the tag asks for a floating-point type.
    pub open spec fn is_float(self) -> bool {
        self == NumberTag::Float32 || self == NumberTag::Float64
    }

    /// The name of the integer type that the tag stands for; an untagged
    /// integer is an `int32`.
    pub open spec fn integer_name(self) -> Seq<char> {
        match self {
            NumberTag::Int8 => "int8"@,
            NumberTag::UInt8 => "uint8"@,
            NumberTag::Int16 => "int16"@,
            NumberTag::UInt16 => "uint16"@,
            NumberTag::UInt32 => "uint32"@,
            NumberTag::Int64 => "int64"@,
            NumberTag::UInt64 => "uint64"@,
            NumberTag::Int128 => "int128"@,
            NumberTag::UInt128 => "uint128"@,
            _ => "int32"@,
        }
    }

    /// The largest number that the tag's integer type holds.
    pub open spec fn integer_max(self) -> int {
        match self {
            NumberTag::Int8 => i8::MAX as int,
            NumberTag::UInt8 => u8::MAX as int,
            NumberTag::Int16 => i16::MAX as int,
            NumberTag::UInt16 => u16::MAX as int,
            NumberTag::UInt32 => u32::MAX as int,
            NumberTag::Int64 => i64::MAX as int,
            NumberTag::UInt64 => u64::MAX as int,
            NumberTag::Int128 => i128::MAX as int,
            NumberTag::UInt128 => u128::MAX as int,
            _ => i32::MAX as int,
        }
    }

    /// The number `value` at the tag's integer type.
    pub open spec fn integer(self, value: int) -> ValueInteger {
        match self {
            NumberTag::Int8 => ValueInteger::Int8(value as i8),
            NumberTag::UInt8 => ValueInteger::UInt8(value as u8),
            NumberTag::Int16 => ValueInteger::Int16(value as i16),
            NumberTag::UInt16 => ValueInteger::UInt16(value as u16),
            NumberTag::UInt32 => ValueInteger::UInt32(value as u32),
            NumberTag::Int64 => ValueInteger::Int64(value as i64),
            NumberTag::UInt64 => ValueInteger::UInt64(value as u64),
            NumberTag::Int128 => ValueInteger::Int128(value as i128),
            NumberTag::UInt128 => ValueInteger::UInt128(value as u128),
            _ => ValueInteger::Int32(value as i32),
        }
    }
}

/// The tag that `tag` spells, if it spells one; the empty tag is `Untagged`.
pub open spec fn tag_of(tag: Seq<char>) -> Option<NumberTag> {
    if tag.len() == 0 {
        Some(NumberTag::Untagged)
    } else if tag == "int8"@ {
        Some(NumberTag::Int8)
    } else if tag == "uint8"@ {
        Some(NumberTag::UInt8)
    } else if tag == "int16"@ {
        Some(NumberTag::Int16)
    } else if tag == "uint16"@ {
        Some(NumberTag::UInt16)
    } else if tag == "int32"@ {
        Some(NumberTag::Int32)
    } else if tag == "uint32"@ {
        Some(NumberTag::UInt32)
    } else if tag == "int64"@ {
        Some(NumberTag::Int64)
    } else if tag == "uint64"@ {
        Some(NumberTag::UInt64)
    } else if tag == "int128"@ {
        Some(NumberTag::Int128)
    } else if tag == "uint128"@ {
        Some(NumberTag::UInt128)
    } else if tag == "float32"@ {
        Some(NumberTag::Float32)
    } else if tag == "float64"@ {
        Some(NumberTag::Float64)
    } else {
        None
    }
}

/// What an integer fault says.
pub open spec fn fault_text(fault: IntegerFault) -> Seq<char> {
    match fault {
        IntegerFault::Empty => "cannot parse integer from empty string"@,
        IntegerFault::InvalidDigit => "invalid digit found in string"@,
        IntegerFault::TooLarge => "number too large to fit in target type"@,
    }
}

/// The message of a literal that is no number of the type called `name`.
pub open spec fn invalid_number(name: Seq<char>, reason: Seq<char>) -> Seq<char> {
    "Invalid "@ + name + " number: "@ + reason
}

/// The literal that the digits `text`, read in `radix`, make under `tag`, or
/// the message of the lexical error that they make instead.
///
/// - A tag that is none of the twelve type names is an error.
/// - A float, by its tag or by a dot without a tag, keeps `text` as its
///   decimal text; with a radix other than 10 it is an error.
/// - An integer with a dot is an error. Without one, its value is that of
///   `text` read in `radix`, at the width and signedness of the tag, and a
///   digit that the radix lacks or a value above the type's maximum is an error.
pub open spec fn number_literal(text: Seq<char>, tag: Seq<char>, radix: int, found_dot: bool) -> Result<
    Literal,
    Seq<char>,
> {
    match tag_of(tag) {
        None => Err("Invalid number tag: "@ + tag),
        Some(kind) => if kind.is_float() || (kind == NumberTag::Untagged && found_dot) {
            if radix != 10 {
                Err("Cannot use radix prefix in float type."@)
            } else if kind == NumberTag::Float32 {
                Ok(Literal::Float32(text))
            } else {
                Ok(Literal::Float64(text))
            }
        } else if found_dot {
            Err(invalid_number(kind.integer_name(), "Unexpected dot."@))
        } else {
            match read_digits(text, radix, kind.integer_max()) {
                Ok(value) => Ok(Literal::Integer(kind.integer(value))),
                Err(fault) => Err(invalid_number(kind.integer_name(), fault_text(fault))),
            }
        },
    }
}

/// A literal with a radix prefix and a dot or a float tag is never a number.
pub proof fn lemma_radix_prefix_excludes_float(
    text: Seq<char>,
    tag: Seq<char>,
    radix: int,
    found_dot: bool,
)
    requires
        radix != 10,
        found_dot || tag == "float32"@ || tag == "float64"@,
    ensures
        number_literal(text, tag, radix, found_dot) is Err,
{
    reveal_strlit("int8");
    reveal_strlit("uint8");
    reveal_strlit("int16");
    reveal_strlit("uint16");
    reveal_strlit("int32");
    reveal_strlit("uint32");
    reveal_strlit("int64");
    reveal_strlit("uint64");
    reveal_strlit("int128");
    reveal_strlit("uint128");
    reveal_strlit("float32");
    reveal_strlit("float64");
    if tag == "float32"@ {
        assert(tag[0] == 'f' && tag[5] == '3');
    }
    if tag == "float64"@ {
        assert(tag[0] == 'f' && tag[5] == '6');
    }
}

/// A literal without a dot whose digits all belong to the radix and whose
/// value fits the tag's integer type is that value at that type.
pub proof fn lemma_integer_literal_value(text: Seq<char>, tag: Seq<char>, radix: int)
    requires
        radix >= 2,
        text.len() > 0,
        forall|i: int| 0 <= i < text.len() ==> is_digit_of(#[trigger] text[i], radix),
        tag_of(tag) matches Some(kind) && !kind.is_float() && radix_value(text, radix)
            <= kind.integer_max(),
    ensures
        number_literal(text, tag, radix, false) == Ok::<Literal, Seq<char>>(
            Literal::Integer(tag_of(tag)->0.integer(radix_value(text, radix))),
        ),
        tag_of(tag)->0.integer(radix_value(text, radix)).as_int() == radix_value(text, radix),
{
    lemma_digit_run_is(text, radix, text.len() as int);
    assert(text.take(text.len() as int) =~= text);
    lemma_radix_value_grows(text, radix, 0, text.len() as int);
}

/// A zero before the digits changes nothing about their value.
pub proof fn lemma_leading_zero(text: Seq<char>, radix: int)
    ensures
        radix_value(seq!['0'] + text, radix) == radix_value(text, radix),
    decreases text.len(),
{
    let whole = seq!['0'] + text;
    if text.len() == 0 {
        assert(whole.drop_last() =~= Seq::<char>::empty());
        assert(radix_value(whole.drop_last(), radix) == 0);
    } else {
        assert(whole.drop_last() =~= seq!['0'] + text.drop_last());
        assert(whole.last() == text.last());
        lemma_leading_zero(text.drop_last(), radix);
    }
}

/// A literal with a radix prefix has the value of the digits behind the
/// prefix, read in the radix of the prefix, at the type of its tag: the
/// digits are read behind the literal's leading zero, which adds nothing.
pub proof fn lemma_prefixed_literal_value(digits: Seq<char>, tag: Seq<char>, radix: int)
    requires
        radix >= 2,
        forall|i: int| 0 <= i < digits.len() ==> is_digit_of(#[trigger] digits[i], radix),
        tag_of(tag) matches Some(kind) && !kind.is_float() && radix_value(digits, radix)
            <= kind.integer_max(),
    ensures
        number_literal(seq!['0'] + digits, tag, radix, false) == Ok::<Literal, Seq<char>>(
            Literal::Integer(tag_of(tag)->0.integer(radix_value(digits, radix))),
        ),
        tag_of(tag)->0.integer(radix_value(digits, radix)).as_int() == radix_value(digits, radix),
{
    let text = seq!['0'] + digits;
    lemma_leading_zero(digits, radix);
    assert forall|i: int| 0 <= i < text.len() implies is_digit_of(#[trigger] text[i], radix) by {
        if i > 0 {
            assert(text[i] == digits[i - 1]);
        }
    }
    lemma_integer_literal_value(text, tag, radix);
}

/// The tag that `tag` spells, if it spells one.
pub fn recognize_tag(tag: &Vec<char>) -> (kind: Option<NumberTag>)
    ensures
        kind == tag_of(tag@),
{
    if tag.len() == 0 {
        Some(NumberTag::Untagged)
    } else if spells(tag, "int8") {
        Some(NumberTag::Int8)
    } else if spells(tag, "uint8") {
        Some(NumberTag::UInt8)
    } else if spells(tag, "int16") {
        Some(NumberTag::Int16)
    } else if spells(tag, "uint16") {
        Some(NumberTag::UInt16)
    } else if spells(tag, "int32") {
        Some(NumberTag::Int32)
    } else if spells(tag, "uint32") {
        Some(NumberTag::UInt32)
    } else if spells(tag, "int64") {
        Some(NumberTag::Int64)
    } else if spells(tag, "uint64") {
        Some(NumberTag::UInt64)
    } else if spells(tag, "int128") {
        Some(NumberTag::Int128)
    } else if spells(tag, "uint128") {
        Some(NumberTag::UInt128)
    } else if spells(tag, "float32") {
        Some(NumberTag::Float32)
    } else if spells(tag, "float64") {
        Some(NumberTag::Float64)
    } else {
        None
    }
}

fn integer_name(kind: NumberTag) -> (name: &'static str)
    ensures
        name@ == kind.integer_name(),
{
    match kind {
        NumberTag::Int8 => "int8",
        NumberTag::UInt8 => "uint8",
        NumberTag::Int16 => "int16",
        NumberTag::UInt16 => "uint16",
        NumberTag::UInt32 => "uint32",
        NumberTag::Int64 => "int64",
        NumberTag::UInt64 => "uint64",
        NumberTag::Int128 => "int128",
        NumberTag::UInt128 => "uint128",
        _ => "int32",
    }
}

fn integer_max(kind: NumberTag) -> (max: u128)
    ensures
        max == kind.integer_max(),
{
    match kind {
        NumberTag::Int8 => 0x7f,
        NumberTag::UInt8 => 0xff,
        NumberTag::Int16 => 0x7fff,
        NumberTag::UInt16 => 0xffff,
        NumberTag::UInt32 => 0xffff_ffff,
        NumberTag::Int64 => 0x7fff_ffff_ffff_ffff,
        NumberTag::UInt64 => 0xffff_ffff_ffff_ffff,
        NumberTag::Int128 => 0x7fff_ffff_ffff_ffff_ffff_ffff_ffff_ffff,
        NumberTag::UInt128 => 0xffff_ffff_ffff_ffff_ffff_ffff_ffff_ffff,
        _ => 0x7fff_ffff,
    }
}

fn integer_token(kind: NumberTag, value: u128) -> (token: TokenInteger)
    requires
        value <= kind.integer_max(),
    ensures
        token.value() == kind.integer(value as int),
{
    match kind {
        NumberTag::Int8 => TokenInteger::Int8(value as i8),
        NumberTag::UInt8 => TokenInteger::UInt8(value as u8),
        NumberTag::Int16 => TokenInteger::Int16(value as i16),
        NumberTag::UInt16 => TokenInteger::UInt16(value as u16),
        NumberTag::UInt32 => TokenInteger::UInt32(value as u32),
        NumberTag::Int64 => TokenInteger::Int64(value as i64),
        NumberTag::UInt64 => TokenInteger::UInt64(value as u64),
        NumberTag::Int128 => TokenInteger::Int128(value as i128),
        NumberTag::UInt128 => TokenInteger::UInt128(value),
        _ => TokenInteger::Int32(value as i32),
    }
}

fn fault_message(name: &str, fault: IntegerFault) -> (msg: String)
    ensures
        msg@ == invalid_number(name@, fault_text(fault)),
{
    let reason = match fault {
        IntegerFault::Empty => "cannot parse integer from empty string",
        IntegerFault::InvalidDigit => "invalid digit found in string",
        IntegerFault::TooLarge => "number too large to fit in target type",
    };
    invalid_number_message(name, reason)
}

fn invalid_number_message(name: &str, reason: &str) -> (msg: String)
    ensures
        msg@ == invalid_number(name@, reason@),
{
    let mut msg = join("Invalid ", name);
    msg.append(" number: ");
    msg.append(reason);
    msg
}

/// The literal that the digits `text`, read in `radix`, make under `tag`, or
/// the message of the lexical error that they make instead.
pub fn classify_number(text: &Vec<char>, tag: &Vec<char>, radix: u32, found_dot: bool) -> (outcome:
    Result<TokenLiteral, String>)
    requires
        2 <= radix <= 36,
    ensures
        match outcome {
            Ok(literal) => number_literal(text@, tag@, radix as int, found_dot) == Ok::<
                Literal,
                Seq<char>,
            >(literal@),
            Err(msg) => number_literal(text@, tag@, radix as int, found_dot) == Err::<
                Literal,
                Seq<char>,
            >(msg@),
        },
{
    let kind = match recognize_tag(tag) {
        None => {
            let spelled = string_of(tag);
            return Err(join("Invalid number tag: ", spelled.as_str()));
        },
        Some(kind) => kind,
    };
    let float = matches!(kind, NumberTag::Float32 | NumberTag::Float64);
    let untagged = matches!(kind, NumberTag::Untagged);
    if float || (untagged && found_dot) {
        if radix != 10 {
            Err("Cannot use radix prefix in float type.".to_owned())
        } else if matches!(kind, NumberTag::Float32) {
            Ok(TokenLiteral::Float(TokenFloat::Float32(string_of(text))))
        } else {
            Ok(TokenLiteral::Float(TokenFloat::Float64(string_of(text))))
        }
    } else if found_dot {
        Err(invalid_number_message(integer_name(kind), "Unexpected dot."))
    } else {
        match parse_digits(text, radix, integer_max(kind)) {
            Ok(value) => Ok(TokenLiteral::Integer(integer_token(kind, value))),
            Err(fault) => Err(fault_message(integer_name(kind), fault)),
        }
    }
}

} // verus!

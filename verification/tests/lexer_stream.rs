use iranta::compiler_data::position::Position;
use iranta::lexer::number::{classify_number, digit_of, parse_digits, recognize_tag, IntegerFault, NumberTag};
use iranta::lexer::token::{TokenFloat, TokenInteger, TokenLiteral, TokenOperator, TokenParen, TokenType};
use iranta::lexer::context::LexerContext;
use iranta::lexer::Lexer;

fn quiet() -> LexerContext {
    LexerContext { debug_print_token: false }
}

fn span(line: usize, start_col: usize, end_col: usize) -> Position {
    Position { start_line: line, end_line: line, start_col, end_col }
}

fn error_of(source: &str) -> (Position, String) {
    let text = source.to_string();
    let mut lexer = Lexer::new(&text);
    let error = lexer.get_token(&quiet()).unwrap_err();
    (error.pos, error.msg)
}

fn integer_of(source: &str) -> TokenInteger {
    let text = source.to_string();
    let mut lexer = Lexer::new(&text);
    match lexer.get_token(&quiet()).unwrap().token_type {
        TokenType::Literal(TokenLiteral::Integer(integer)) => integer,
        other => panic!("{:?}", other),
    }
}

fn chars(text: &str) -> Vec<char> {
    text.chars().collect()
}

#[test]
fn tokens_carry_their_spans() {
    let text = "12 + 3".to_string();
    let mut lexer = Lexer::new(&text);
    let ctx = quiet();
    let number = lexer.get_token(&ctx).unwrap();
    assert_eq!(number.pos, span(1, 1, 2));
    let plus = lexer.get_token(&ctx).unwrap();
    assert_eq!(plus.pos, span(1, 4, 4));
    assert_eq!(plus.token_type, TokenType::Operator(TokenOperator::Plus));
    let last = lexer.get_token(&ctx).unwrap();
    assert_eq!(last.token_type, TokenType::Literal(TokenLiteral::Integer(TokenInteger::Int32(3))));
    assert_eq!(last.pos, span(1, 8, 8));
}

#[test]
fn newlines_advance_the_line_and_reset_the_column() {
    let text = "1\n  +\n\n(".to_string();
    let mut lexer = Lexer::new(&text);
    let ctx = quiet();
    assert_eq!(lexer.get_token(&ctx).unwrap().pos, span(1, 1, 1));
    assert_eq!(lexer.get_token(&ctx).unwrap().pos, span(2, 3, 3));
    let paren = lexer.get_token(&ctx).unwrap();
    assert_eq!(paren.token_type, TokenType::Paren(TokenParen::LeftParen));
    assert_eq!(paren.pos, span(4, 3, 3));
}

#[test]
fn end_of_input_is_stable() {
    let text = "7 ".to_string();
    let mut lexer = Lexer::new(&text);
    let ctx = quiet();
    assert!(!lexer.get_token(&ctx).unwrap().is_eof());
    let first = lexer.get_token(&ctx).unwrap();
    assert!(first.is_eof());
    for _ in 0..5 {
        assert_eq!(lexer.peek_token(&ctx).unwrap(), first);
        assert_eq!(lexer.get_token(&ctx).unwrap(), first);
    }
}

#[test]
fn empty_source_is_end_of_input() {
    let text = String::new();
    let mut lexer = Lexer::new(&text);
    let token = lexer.get_token(&quiet()).unwrap();
    assert!(token.is_eof());
    assert_eq!(token.pos, span(1, 2, 2));
}

#[test]
fn peek_does_not_consume() {
    let text = "1 2".to_string();
    let mut lexer = Lexer::new(&text);
    let ctx = quiet();
    let peeked = lexer.peek_token(&ctx).unwrap();
    assert_eq!(lexer.peek_token(&ctx).unwrap(), peeked);
    assert_eq!(lexer.get_token(&ctx).unwrap(), peeked);
    let next = lexer.get_token(&ctx).unwrap();
    assert_eq!(next.token_type, TokenType::Literal(TokenLiteral::Integer(TokenInteger::Int32(2))));
}

#[test]
fn invalid_character_is_reported_and_skipped_to_the_next_whitespace() {
    let text = "1 @#$ 2".to_string();
    let mut lexer = Lexer::new(&text);
    let ctx = quiet();
    assert!(lexer.get_token(&ctx).is_ok());
    let error = lexer.get_token(&ctx).unwrap_err();
    assert_eq!(error.msg, "Invalid character.");
    assert_eq!(error.pos, span(1, 3, 3));
    let next = lexer.get_token(&ctx).unwrap();
    assert_eq!(next.token_type, TokenType::Literal(TokenLiteral::Integer(TokenInteger::Int32(2))));
    assert!(lexer.get_token(&ctx).unwrap().is_eof());
}

#[test]
fn peeked_error_is_not_buffered() {
    let text = "@ 5".to_string();
    let mut lexer = Lexer::new(&text);
    let ctx = quiet();
    assert_eq!(lexer.peek_token(&ctx).unwrap_err().msg, "Invalid character.");
    let next = lexer.peek_token(&ctx).unwrap();
    assert_eq!(next.token_type, TokenType::Literal(TokenLiteral::Integer(TokenInteger::Int32(5))));
}

#[test]
fn error_in_a_literal_skips_the_rest_of_the_word() {
    let text = "1..2+3 4".to_string();
    let mut lexer = Lexer::new(&text);
    let ctx = quiet();
    assert_eq!(lexer.get_token(&ctx).unwrap_err().msg, "Unexpected dot.");
    let next = lexer.get_token(&ctx).unwrap();
    assert_eq!(next.token_type, TokenType::Literal(TokenLiteral::Integer(TokenInteger::Int32(4))));
}

#[test]
fn debug_mode_keeps_consumed_tokens_for_echo() {
    let text = "1+2".to_string();
    let mut lexer = Lexer::new(&text);
    let loud = LexerContext { debug_print_token: true };
    let first = lexer.get_token(&loud).unwrap();
    lexer.peek_token(&loud).unwrap();
    let second = lexer.get_token(&loud).unwrap();
    let third = lexer.get_token(&quiet()).unwrap();
    assert_eq!(third.token_type, TokenType::Literal(TokenLiteral::Integer(TokenInteger::Int32(2))));
    assert_eq!(lexer.take_echo(), vec![first, second]);
    assert_eq!(lexer.take_echo(), vec![]);
}

#[test]
fn every_integer_tag_gives_its_type() {
    assert_eq!(integer_of("127int8"), TokenInteger::Int8(127));
    assert_eq!(integer_of("255uint8"), TokenInteger::UInt8(255));
    assert_eq!(integer_of("32767int16"), TokenInteger::Int16(32767));
    assert_eq!(integer_of("65535uint16"), TokenInteger::UInt16(65535));
    assert_eq!(integer_of("2147483647int32"), TokenInteger::Int32(2147483647));
    assert_eq!(integer_of("4294967295uint32"), TokenInteger::UInt32(4294967295));
    assert_eq!(integer_of("9223372036854775807int64"), TokenInteger::Int64(i64::MAX));
    assert_eq!(integer_of("18446744073709551615uint64"), TokenInteger::UInt64(u64::MAX));
    assert_eq!(
        integer_of("170141183460469231731687303715884105727int128"),
        TokenInteger::Int128(i128::MAX)
    );
    assert_eq!(
        integer_of("340282366920938463463374607431768211455uint128"),
        TokenInteger::UInt128(u128::MAX)
    );
}

#[test]
fn value_above_the_type_is_an_error() {
    let too_large = "number too large to fit in target type";
    assert_eq!(error_of("128int8").1, format!("Invalid int8 number: {}", too_large));
    assert_eq!(error_of("256uint8").1, format!("Invalid uint8 number: {}", too_large));
    assert_eq!(error_of("2147483648").1, format!("Invalid int32 number: {}", too_large));
    assert_eq!(
        error_of("340282366920938463463374607431768211456uint128").1,
        format!("Invalid uint128 number: {}", too_large)
    );
    assert_eq!(
        error_of("170141183460469231731687303715884105728int128").1,
        format!("Invalid int128 number: {}", too_large)
    );
}

#[test]
fn digit_outside_the_radix_is_an_error() {
    assert_eq!(error_of("0b12").1, "Invalid int32 number: invalid digit found in string");
    assert_eq!(error_of("0o8uint8").1, "Invalid uint8 number: invalid digit found in string");
}

#[test]
fn hexadecimal_digits_in_either_case() {
    assert_eq!(integer_of("0xff"), TokenInteger::Int32(255));
    assert_eq!(integer_of("0xFFuint8"), TokenInteger::UInt8(255));
    assert_eq!(integer_of("0x1Fint8"), TokenInteger::Int8(31));
    assert_eq!(integer_of("0x7fff_ffff"), TokenInteger::Int32(i32::MAX));
    assert_eq!(integer_of("0x"), TokenInteger::Int32(0));
}

#[test]
fn unknown_tag_is_an_error() {
    let (pos, msg) = error_of("1abc");
    assert_eq!(msg, "Invalid number tag: abc");
    assert_eq!(pos, span(1, 6, 6));
    assert_eq!(error_of("1int9 ").1, "Invalid number tag: int9");
    assert_eq!(error_of("0x1float32").1, "Invalid number tag: loat32");
}

#[test]
fn underscores_in_a_tag_are_ignored() {
    assert_eq!(integer_of("1_int_8"), TokenInteger::Int8(1));
}

#[test]
fn integer_tag_with_a_dot_is_an_error() {
    assert_eq!(error_of("1.5int8").1, "Invalid int8 number: Unexpected dot.");
    assert_eq!(error_of("1.5uint128").1, "Invalid uint128 number: Unexpected dot.");
}

#[test]
fn dot_behind_a_tag_is_an_error() {
    let (pos, msg) = error_of("1int8.5 ");
    assert_eq!(msg, "Unexpected dot.");
    assert_eq!(pos, span(1, 5, 5));
}

#[test]
fn float_tags_give_floats() {
    let text = "1float32 2.5float64 3float64".to_string();
    let mut lexer = Lexer::new(&text);
    let ctx = quiet();
    assert_eq!(
        lexer.get_token(&ctx).unwrap().token_type,
        TokenType::Literal(TokenLiteral::Float(TokenFloat::Float32("1".to_string())))
    );
    assert_eq!(
        lexer.get_token(&ctx).unwrap().token_type,
        TokenType::Literal(TokenLiteral::Float(TokenFloat::Float64("2.5".to_string())))
    );
    assert_eq!(
        lexer.get_token(&ctx).unwrap().token_type,
        TokenType::Literal(TokenLiteral::Float(TokenFloat::Float64("3".to_string())))
    );
}

#[test]
fn whitespace_of_every_kind_separates_tokens() {
    let text = "1\t\u{a0}\u{2003}2".to_string();
    let mut lexer = Lexer::new(&text);
    let ctx = quiet();
    assert_eq!(
        lexer.get_token(&ctx).unwrap().token_type,
        TokenType::Literal(TokenLiteral::Integer(TokenInteger::Int32(1)))
    );
    assert_eq!(
        lexer.get_token(&ctx).unwrap().token_type,
        TokenType::Literal(TokenLiteral::Integer(TokenInteger::Int32(2)))
    );
}

#[test]
fn letters_of_every_script_belong_to_a_tag() {
    assert_eq!(error_of("1é٣+").1, "Invalid number tag: é٣");
}

#[test]
fn nul_character_ends_the_input() {
    let text = "1\0 2".to_string();
    let mut lexer = Lexer::new(&text);
    let ctx = quiet();
    assert!(!lexer.get_token(&ctx).unwrap().is_eof());
    let end = lexer.get_token(&ctx).unwrap();
    assert!(end.is_eof());
    assert_eq!(end.pos, span(1, 2, 2));
    for _ in 0..3 {
        assert_eq!(lexer.peek_token(&ctx).unwrap(), end);
        assert_eq!(lexer.get_token(&ctx).unwrap(), end);
    }
}

#[test]
fn nul_character_behind_whitespace_ends_the_input() {
    let text = "7  \0".to_string();
    let mut lexer = Lexer::new(&text);
    let ctx = quiet();
    assert!(!lexer.get_token(&ctx).unwrap().is_eof());
    let end = lexer.get_token(&ctx).unwrap();
    assert!(end.is_eof());
    assert_eq!(lexer.get_token(&ctx).unwrap(), end);
}

#[test]
fn digits_are_read_in_their_radix() {
    assert_eq!(parse_digits(&chars("101"), 2, 255), Ok(5));
    assert_eq!(parse_digits(&chars("777"), 8, 1000), Ok(511));
    assert_eq!(parse_digits(&chars("0012"), 10, 12), Ok(12));
    assert_eq!(parse_digits(&chars("zZ"), 36, 10000), Ok(35 * 36 + 35));
    assert_eq!(parse_digits(&chars("13"), 10, 12), Err(IntegerFault::TooLarge));
    assert_eq!(parse_digits(&chars("1x"), 10, 12), Err(IntegerFault::InvalidDigit));
    assert_eq!(parse_digits(&chars(""), 10, 12), Err(IntegerFault::Empty));
    assert_eq!(parse_digits(&chars("99x"), 10, 98), Err(IntegerFault::TooLarge));
    assert_eq!(parse_digits(&chars("9x9"), 10, 98), Err(IntegerFault::InvalidDigit));
    assert_eq!(
        parse_digits(&chars("340282366920938463463374607431768211455"), 10, u128::MAX),
        Ok(u128::MAX)
    );
    assert_eq!(
        parse_digits(&chars("340282366920938463463374607431768211456"), 10, u128::MAX),
        Err(IntegerFault::TooLarge)
    );
}

#[test]
fn digit_values() {
    assert_eq!(digit_of('0'), 0);
    assert_eq!(digit_of('9'), 9);
    assert_eq!(digit_of('a'), 10);
    assert_eq!(digit_of('F'), 15);
    assert_eq!(digit_of('z'), 35);
    assert_eq!(digit_of('_'), 36);
    assert_eq!(digit_of('é'), 36);
}

#[test]
fn tags_are_recognized() {
    assert_eq!(recognize_tag(&chars("")), Some(NumberTag::Untagged));
    assert_eq!(recognize_tag(&chars("int8")), Some(NumberTag::Int8));
    assert_eq!(recognize_tag(&chars("uint128")), Some(NumberTag::UInt128));
    assert_eq!(recognize_tag(&chars("float32")), Some(NumberTag::Float32));
    assert_eq!(recognize_tag(&chars("float64")), Some(NumberTag::Float64));
    assert_eq!(recognize_tag(&chars("Int8")), None);
    assert_eq!(recognize_tag(&chars("int")), None);
}

#[test]
fn literals_are_classified() {
    assert_eq!(
        classify_number(&chars("1F"), &chars("uint16"), 16, false),
        Ok(TokenLiteral::Integer(TokenInteger::UInt16(31)))
    );
    assert_eq!(
        classify_number(&chars("0.5"), &chars(""), 10, true),
        Ok(TokenLiteral::Float(TokenFloat::Float64("0.5".to_string())))
    );
    assert_eq!(
        classify_number(&chars("1.5"), &chars(""), 16, true),
        Err("Cannot use radix prefix in float type.".to_string())
    );
    assert_eq!(
        classify_number(&chars("1"), &chars("float32"), 2, false),
        Err("Cannot use radix prefix in float type.".to_string())
    );
    assert_eq!(
        classify_number(&chars("1"), &chars("nope"), 10, false),
        Err("Invalid number tag: nope".to_string())
    );
}

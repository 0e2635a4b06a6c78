use iranta::compiler_data::position::Position;
use iranta::lexer::token::{
    Token, TokenFloat, TokenInteger, TokenLiteral, TokenOperator, TokenParen, TokenType,
};
use iranta::lexer::context::LexerContext;
use iranta::lexer::Lexer;

fn quiet() -> LexerContext {
    LexerContext { debug_print_token: false }
}

fn first_token(source: &str) -> Result<Token, (Position, String)> {
    let text = source.to_string();
    let mut lexer = Lexer::new(&text);
    lexer.get_token(&quiet()).map_err(|error| (error.pos, error.msg))
}

fn first_kind(source: &str) -> TokenType {
    first_token(source).unwrap().token_type
}

fn integer(value: TokenInteger) -> TokenType {
    TokenType::Literal(TokenLiteral::Integer(value))
}

#[test]
fn hexadecimal_literal_defaults_to_int32() {
    assert_eq!(first_kind("0x1F"), integer(TokenInteger::Int32(31)));
}

#[test]
fn tagged_literal_takes_the_width_of_its_tag() {
    assert_eq!(first_kind("10uint8"), integer(TokenInteger::UInt8(10)));
}

#[test]
fn underscores_are_ignored() {
    assert_eq!(first_kind("1_000"), integer(TokenInteger::Int32(1000)));
}

#[test]
fn binary_and_octal_prefixes() {
    assert_eq!(first_kind("0b101"), integer(TokenInteger::Int32(5)));
    assert_eq!(first_kind("0o17int16"), integer(TokenInteger::Int16(15)));
}

#[test]
fn leading_dot_is_normalized() {
    let token = first_kind(".5");
    match token {
        TokenType::Literal(TokenLiteral::Float(TokenFloat::Float64(text))) => {
            assert_eq!(text, "0.5");
            assert_eq!(text.parse::<f64>().unwrap(), 0.5);
        }
        other => panic!("{:?}", other),
    }
}

#[test]
fn trailing_dot_is_normalized() {
    let token = first_kind("5.");
    match token {
        TokenType::Literal(TokenLiteral::Float(TokenFloat::Float64(text))) => {
            assert_eq!(text, "5.0");
            assert_eq!(text.parse::<f64>().unwrap(), 5.0);
        }
        other => panic!("{:?}", other),
    }
}

#[test]
fn lone_dot_is_an_error() {
    let (_, msg) = first_token(".").unwrap_err();
    assert_eq!(msg, "Invalid syntax.");
}

#[test]
fn double_dot_is_an_error() {
    let (_, msg) = first_token("1..2").unwrap_err();
    assert_eq!(msg, "Unexpected dot.");
}

#[test]
fn radix_prefix_with_dot_is_an_error() {
    let (_, msg) = first_token("0x1.5").unwrap_err();
    assert_eq!(msg, "Cannot use radix prefix in float type.");
}

#[test]
fn radix_prefix_with_float_tag_is_an_error() {
    assert!(first_token("0x1float32").is_err());
    let (_, msg) = first_token("0b1float32").unwrap_err();
    assert_eq!(msg, "Cannot use radix prefix in float type.");
    let (_, msg) = first_token("0o7float64").unwrap_err();
    assert_eq!(msg, "Cannot use radix prefix in float type.");
}

#[test]
fn operators_and_parentheses() {
    let text = "+ - * / ** ( )".to_string();
    let mut lexer = Lexer::new(&text);
    let ctx = quiet();
    let mut kinds = Vec::new();
    loop {
        let token = lexer.get_token(&ctx).unwrap();
        if token.is_eof() {
            break;
        }
        kinds.push(token.token_type);
    }
    assert_eq!(
        kinds,
        vec![
            TokenType::Operator(TokenOperator::Plus),
            TokenType::Operator(TokenOperator::Minus),
            TokenType::Operator(TokenOperator::Multiply),
            TokenType::Operator(TokenOperator::Divide),
            TokenType::Operator(TokenOperator::Power),
            TokenType::Paren(TokenParen::LeftParen),
            TokenType::Paren(TokenParen::RightParen),
        ]
    );
}

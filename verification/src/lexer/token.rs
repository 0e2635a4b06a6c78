//! Tokens: a kind and the span of source text it was read from.

use crate::compiler_data::position::Position;
use crate::compiler_data::value::{Literal, ValueInteger};
use crate::text::{integer_text, push_decimal, push_integer};
use vstd::prelude::*;

verus! {

/// An arithmetic operator symbol.
#[derive(Clone, Copy, Debug, PartialEq, Eq, Structural, Hash)]
pub enum TokenOperator {
    Plus,
    Minus,
    Multiply,
    Divide,
    Power,
}

/// A parenthesis.
#[derive(Clone, Copy, Debug, PartialEq, Eq, Structural)]
pub enum TokenParen {
    LeftParen,
    RightParen,
}

/// An integer literal with its width and signedness.
#[derive(Clone, Copy, Debug, PartialEq, Eq, Structural)]
pub enum TokenInteger {
    Int8(i8),
    UInt8(u8),
    Int16(i16),
    UInt16(u16),
    Int32(i32),
    UInt32(u32),
    Int64(i64),
    UInt64(u64),
    Int128(i128),
    UInt128(u128),
}

impl TokenOperator {
    /// The name of the operator.
    pub open spec fn name(self) -> Seq<char> {
        match self {
            TokenOperator::Plus => "Plus"@,
            TokenOperator::Minus => "Minus"@,
            TokenOperator::Multiply => "Multiply"@,
            TokenOperator::Divide => "Divide"@,
            TokenOperator::Power => "Power"@,
        }
    }
}

impl TokenParen {
    /// The name of the parenthesis.
    pub open spec fn name(self) -> Seq<char> {
        match self {
            TokenParen::LeftParen => "LeftParen"@,
            TokenParen::RightParen => "RightParen"@,
        }
    }
}

impl TokenInteger {
    /// The name of the integer's variant.
    pub open spec fn name(self) -> Seq<char> {
        match self {
            TokenInteger::Int8(_) => "Int8"@,
            TokenInteger::UInt8(_) => "UInt8"@,
            TokenInteger::Int16(_) => "Int16"@,
            TokenInteger::UInt16(_) => "UInt16"@,
            TokenInteger::Int32(_) => "Int32"@,
            TokenInteger::UInt32(_) => "UInt32"@,
            TokenInteger::Int64(_) => "Int64"@,
            TokenInteger::UInt64(_) => "UInt64"@,
            TokenInteger::Int128(_) => "Int128"@,
            TokenInteger::UInt128(_) => "UInt128"@,
        }
    }

    /// The integer as text: the name of its variant and its number.
    pub open spec fn text(self) -> Seq<char> {
        self.name() + "("@ + integer_text(self.value().as_int()) + ")"@
    }

    /// The same integer as a literal payload.
    pub open spec fn value(self) -> ValueInteger {
        match self {
            TokenInteger::Int8(v) => ValueInteger::Int8(v),
            TokenInteger::UInt8(v) => ValueInteger::UInt8(v),
            TokenInteger::Int16(v) => ValueInteger::Int16(v),
            TokenInteger::UInt16(v) => ValueInteger::UInt16(v),
            TokenInteger::Int32(v) => ValueInteger::Int32(v),
            TokenInteger::UInt32(v) => ValueInteger::UInt32(v),
            TokenInteger::Int64(v) => ValueInteger::Int64(v),
            TokenInteger::UInt64(v) => ValueInteger::UInt64(v),
            TokenInteger::Int128(v) => ValueInteger::Int128(v),
            TokenInteger::UInt128(v) => ValueInteger::UInt128(v),
        }
    }
}

/// A floating-point literal with its width, as its decimal text.
#[derive(Clone, Debug, PartialEq, Eq)]
pub enum TokenFloat {
    Float32(String),
    Float64(String),
}

/// A numeric literal.
#[derive(Clone, Debug, PartialEq, Eq)]
pub enum TokenLiteral {
    Integer(TokenInteger),
    Float(TokenFloat),
}

impl View for TokenLiteral {
    type V = Literal;

    open spec fn view(&self) -> Literal {
        match self {
            TokenLiteral::Integer(integer) => Literal::Integer(integer.value()),
            TokenLiteral::Float(TokenFloat::Float32(text)) => Literal::Float32(text@),
            TokenLiteral::Float(TokenFloat::Float64(text)) => Literal::Float64(text@),
        }
    }
}

/// The kind of a token.
#[derive(Clone, Debug, PartialEq, Eq)]
pub enum TokenType {
    Literal(TokenLiteral),
    Identifier(String),
    Operator(TokenOperator),
    Paren(TokenParen),
    EOF,
}

/// What a token's kind is in contracts.
pub enum TokenKind {
    Literal(Literal),
    Identifier(Seq<char>),
    Operator(TokenOperator),
    Paren(TokenParen),
    EOF,
}

impl TokenLiteral {
    /// The literal as text: its variants from the outside in, then its
    /// number or its decimal text.
    pub open spec fn text(self) -> Seq<char> {
        match self {
            TokenLiteral::Integer(integer) => "Integer("@ + integer.text() + ")"@,
            TokenLiteral::Float(TokenFloat::Float32(text)) => "Float(Float32("@ + text@ + "))"@,
            TokenLiteral::Float(TokenFloat::Float64(text)) => "Float(Float64("@ + text@ + "))"@,
        }
    }
}

impl TokenType {
    /// The kind as text: its variant and, in parentheses, what it holds.
    pub open spec fn text(self) -> Seq<char> {
        match self {
            TokenType::Literal(literal) => "Literal("@ + literal.text() + ")"@,
            TokenType::Identifier(name) => "Identifier(\""@ + name@ + "\")"@,
            TokenType::Operator(operator) => "Operator("@ + operator.name() + ")"@,
            TokenType::Paren(paren) => "Paren("@ + paren.name() + ")"@,
            TokenType::EOF => "EOF"@,
        }
    }
}

impl View for TokenType {
    type V = TokenKind;

    open spec fn view(&self) -> TokenKind {
        match self {
            TokenType::Literal(literal) => TokenKind::Literal(literal@),
            TokenType::Identifier(name) => TokenKind::Identifier(name@),
            TokenType::Operator(operator) => TokenKind::Operator(*operator),
            TokenType::Paren(paren) => TokenKind::Paren(*paren),
            TokenType::EOF => TokenKind::EOF,
        }
    }
}

/// A token: its kind and where it stands in the source.
#[derive(Clone, Debug, PartialEq, Eq)]
pub struct Token {
    pub pos: Position,
    pub token_type: TokenType,
}

/// What a token is in contracts: its span and the view of its kind.
pub struct Lexeme {
    pub pos: Position,
    pub kind: TokenKind,
}

impl View for Token {
    type V = Lexeme;

    open spec fn view(&self) -> Lexeme {
        Lexeme { pos: self.pos, kind: self.token_type@ }
    }
}

impl Token {
    /// A token of kind `token_type` at `pos`.
    #[must_use]
    pub fn new(pos: Position, token_type: TokenType) -> (token: Token)
        ensures
            token.pos == pos,
            token.token_type == token_type,
    {
        Token { pos, token_type }
    }

    /// The token as text: the word `TOKEN`, its span and its kind.
    pub open spec fn text(self) -> Seq<char> {
        "TOKEN "@ + self.pos.text() + " "@ + self.token_type.text()
    }

    /// The token as text.
    #[must_use]
    pub fn to_string(&self) -> (text: String)
        ensures
            text@ == self.text(),
    {
        let mut text = "TOKEN ".to_owned();
        let place = self.pos.to_string();
        text.append(place.as_str());
        text.append(" ");
        let ghost head = text@;
        match &self.token_type {
            TokenType::Literal(TokenLiteral::Integer(integer)) => {
                text.append("Literal(");
                text.append("Integer(");
                push_token_integer(&mut text, integer);
                text.append(")");
                text.append(")");
                assert(text@ =~= head + self.token_type.text());
            },
            TokenType::Literal(TokenLiteral::Float(TokenFloat::Float32(decimal))) => {
                text.append("Literal(");
                text.append("Float(Float32(");
                text.append(decimal.as_str());
                text.append("))");
                text.append(")");
                assert(text@ =~= head + self.token_type.text());
            },
            TokenType::Literal(TokenLiteral::Float(TokenFloat::Float64(decimal))) => {
                text.append("Literal(");
                text.append("Float(Float64(");
                text.append(decimal.as_str());
                text.append("))");
                text.append(")");
                assert(text@ =~= head + self.token_type.text());
            },
            TokenType::Identifier(name) => {
                text.append("Identifier(\"");
                text.append(name.as_str());
                text.append("\")");
                assert(text@ =~= head + self.token_type.text());
            },
            TokenType::Operator(operator) => {
                text.append("Operator(");
                text.append(
                    match operator {
                        TokenOperator::Plus => "Plus",
                        TokenOperator::Minus => "Minus",
                        TokenOperator::Multiply => "Multiply",
                        TokenOperator::Divide => "Divide",
                        TokenOperator::Power => "Power",
                    },
                );
                text.append(")");
                assert(text@ =~= head + self.token_type.text());
            },
            TokenType::Paren(paren) => {
                text.append("Paren(");
                text.append(
                    match paren {
                        TokenParen::LeftParen => "LeftParen",
                        TokenParen::RightParen => "RightParen",
                    },
                );
                text.append(")");
                assert(text@ =~= head + self.token_type.text());
            },
            TokenType::EOF => {
                text.append("EOF");
            },
        }
        text
    }

    /// A token with the same span and kind.
    #[must_use]
    pub fn duplicate(&self) -> (copy: Token)
        ensures
            copy@ == self@,
    {
        let token_type = match &self.token_type {
            TokenType::Literal(TokenLiteral::Integer(integer)) => TokenType::Literal(
                TokenLiteral::Integer(*integer),
            ),
            TokenType::Literal(TokenLiteral::Float(TokenFloat::Float32(text))) => {
                TokenType::Literal(TokenLiteral::Float(TokenFloat::Float32(text.clone())))
            },
            TokenType::Literal(TokenLiteral::Float(TokenFloat::Float64(text))) => {
                TokenType::Literal(TokenLiteral::Float(TokenFloat::Float64(text.clone())))
            },
            TokenType::Identifier(name) => TokenType::Identifier(name.clone()),
            TokenType::Operator(operator) => TokenType::Operator(*operator),
            TokenType::Paren(paren) => TokenType::Paren(*paren),
            TokenType::EOF => TokenType::EOF,
        };
        Token { pos: self.pos, token_type }
    }

    /// Whether the token marks the end of the input.
    #[must_use]
    pub fn is_eof(&self) -> (eof: bool)
        ensures
            eof == (self@.kind is EOF),
    {
        matches!(self.token_type, TokenType::EOF)
    }
}

/// Appends an integer token as text.
fn push_token_integer(text: &mut String, integer: &TokenInteger)
    ensures
        final(text)@ == old(text)@ + integer.text(),
{
    match integer {
        TokenInteger::Int8(v) => {
            text.append("Int8");
            text.append("(");
            push_integer(text, *v as i128);
        },
        TokenInteger::UInt8(v) => {
            text.append("UInt8");
            text.append("(");
            push_integer(text, *v as i128);
        },
        TokenInteger::Int16(v) => {
            text.append("Int16");
            text.append("(");
            push_integer(text, *v as i128);
        },
        TokenInteger::UInt16(v) => {
            text.append("UInt16");
            text.append("(");
            push_integer(text, *v as i128);
        },
        TokenInteger::Int32(v) => {
            text.append("Int32");
            text.append("(");
            push_integer(text, *v as i128);
        },
        TokenInteger::UInt32(v) => {
            text.append("UInt32");
            text.append("(");
            push_integer(text, *v as i128);
        },
        TokenInteger::Int64(v) => {
            text.append("Int64");
            text.append("(");
            push_integer(text, *v as i128);
        },
        TokenInteger::UInt64(v) => {
            text.append("UInt64");
            text.append("(");
            push_integer(text, *v as i128);
        },
        TokenInteger::Int128(v) => {
            text.append("Int128");
            text.append("(");
            push_integer(text, *v);
        },
        TokenInteger::UInt128(v) => {
            text.append("UInt128");
            text.append("(");
            push_decimal(text, *v);
        },
    }
    text.append(")");
    assert(text@ =~= old(text)@ + integer.text());
}

} // verus!

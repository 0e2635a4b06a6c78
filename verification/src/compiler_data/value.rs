//! Payloads of numeric literals.
//!
//! Integers keep their exact width and signedness. A floating-point literal is
//! kept as its decimal text (digits, one dot, digits); the backend turns that
//! text into a constant of the literal's width.

use crate::compiler_data::data_type::{builtin_name, TypeId};
use crate::text::{integer_text, join, push_decimal, push_integer};
use vstd::prelude::*;

verus! {

/// An integer literal of a fixed width and signedness.
#[derive(Clone, Copy, Debug, PartialEq, Eq, Structural)]
pub enum ValueInteger {
    Int8(i8),
    UInt8(u8),
    Int16(i16),
    UInt16(u16),
    Int32(i32),
    UInt32(u32),
    Int64(i64),
    UInt64(u64),
    Int128(i128),
    UInt128(u128),
}

impl ValueInteger {
    /// The number that the literal denotes.
    pub open spec fn as_int(self) -> int {
        match self {
            ValueInteger::Int8(v) => v as int,
            ValueInteger::UInt8(v) => v as int,
            ValueInteger::Int16(v) => v as int,
            ValueInteger::UInt16(v) => v as int,
            ValueInteger::Int32(v) => v as int,
            ValueInteger::UInt32(v) => v as int,
            ValueInteger::Int64(v) => v as int,
            ValueInteger::UInt64(v) => v as int,
            ValueInteger::Int128(v) => v as int,
            ValueInteger::UInt128(v) => v as int,
        }
    }

    /// The handle of the literal's type: the one of its own width and signedness.
    pub open spec fn spec_type_id(self) -> TypeId {
        match self {
            ValueInteger::Int8(_) => TypeId(TypeId::INT8),
            ValueInteger::UInt8(_) => TypeId(TypeId::UINT8),
            ValueInteger::Int16(_) => TypeId(TypeId::INT16),
            ValueInteger::UInt16(_) => TypeId(TypeId::UINT16),
            ValueInteger::Int32(_) => TypeId(TypeId::INT32),
            ValueInteger::UInt32(_) => TypeId(TypeId::UINT32),
            ValueInteger::Int64(_) => TypeId(TypeId::INT64),
            ValueInteger::UInt64(_) => TypeId(TypeId::UINT64),
            ValueInteger::Int128(_) => TypeId(TypeId::INT128),
            ValueInteger::UInt128(_) => TypeId(TypeId::UINT128),
        }
    }

    /// The handle of the literal's type.
    #[verifier::when_used_as_spec(spec_type_id)]
    pub fn type_id(self) -> (ty: TypeId)
        ensures
            ty == self.spec_type_id(),
    {
        match self {
            ValueInteger::Int8(_) => TypeId(TypeId::INT8),
            ValueInteger::UInt8(_) => TypeId(TypeId::UINT8),
            ValueInteger::Int16(_) => TypeId(TypeId::INT16),
            ValueInteger::UInt16(_) => TypeId(TypeId::UINT16),
            ValueInteger::Int32(_) => TypeId(TypeId::INT32),
            ValueInteger::UInt32(_) => TypeId(TypeId::UINT32),
            ValueInteger::Int64(_) => TypeId(TypeId::INT64),
            ValueInteger::UInt64(_) => TypeId(TypeId::UINT64),
            ValueInteger::Int128(_) => TypeId(TypeId::INT128),
            ValueInteger::UInt128(_) => TypeId(TypeId::UINT128),
        }
    }
}

/// A floating-point literal of a fixed width, as its decimal text.
#[derive(Clone, Debug, PartialEq, Eq)]
pub enum ValueFloat {
    Float32(String),
    Float64(String),
}

/// A literal's payload.
#[derive(Clone, Debug, PartialEq, Eq)]
pub enum Value {
    Integer(ValueInteger),
    Float(ValueFloat),
}

/// What a literal is in contracts: the integer itself, or a float's decimal text.
pub enum Literal {
    Integer(ValueInteger),
    Float32(Seq<char>),
    Float64(Seq<char>),
}

impl Literal {
    /// The literal as text: the name of its type and, in parentheses, the
    /// integer in decimal or the decimal text of the float.
    pub open spec fn text(self) -> Seq<char> {
        match self {
            Literal::Integer(integer) => builtin_name(integer.type_id().0) + "("@ + integer_text(
                integer.as_int(),
            ) + ")"@,
            Literal::Float32(text) => "float32("@ + text + ")"@,
            Literal::Float64(text) => "float64("@ + text + ")"@,
        }
    }

    /// The handle of the literal's type.
    pub open spec fn type_id(self) -> TypeId {
        match self {
            Literal::Integer(integer) => integer.type_id(),
            Literal::Float32(_) => TypeId(TypeId::FLOAT32),
            Literal::Float64(_) => TypeId(TypeId::FLOAT64),
        }
    }
}

impl View for ValueFloat {
    type V = Literal;

    open spec fn view(&self) -> Literal {
        match self {
            ValueFloat::Float32(text) => Literal::Float32(text@),
            ValueFloat::Float64(text) => Literal::Float64(text@),
        }
    }
}

impl View for Value {
    type V = Literal;

    open spec fn view(&self) -> Literal {
        match self {
            Value::Integer(integer) => Literal::Integer(*integer),
            Value::Float(float) => float@,
        }
    }
}

/// The name of an integer literal's type.
fn integer_name(integer: &ValueInteger) -> (name: &'static str)
    ensures
        name@ == builtin_name(integer.type_id().0),
{
    match integer {
        ValueInteger::Int8(_) => "int8",
        ValueInteger::UInt8(_) => "uint8",
        ValueInteger::Int16(_) => "int16",
        ValueInteger::UInt16(_) => "uint16",
        ValueInteger::Int32(_) => "int32",
        ValueInteger::UInt32(_) => "uint32",
        ValueInteger::Int64(_) => "int64",
        ValueInteger::UInt64(_) => "uint64",
        ValueInteger::Int128(_) => "int128",
        ValueInteger::UInt128(_) => "uint128",
    }
}

/// Appends an integer literal's number in decimal.
fn push_number(text: &mut String, integer: &ValueInteger)
    ensures
        final(text)@ == old(text)@ + integer_text(integer.as_int()),
{
    match integer {
        ValueInteger::Int8(v) => push_integer(text, *v as i128),
        ValueInteger::UInt8(v) => push_integer(text, *v as i128),
        ValueInteger::Int16(v) => push_integer(text, *v as i128),
        ValueInteger::UInt16(v) => push_integer(text, *v as i128),
        ValueInteger::Int32(v) => push_integer(text, *v as i128),
        ValueInteger::UInt32(v) => push_integer(text, *v as i128),
        ValueInteger::Int64(v) => push_integer(text, *v as i128),
        ValueInteger::UInt64(v) => push_integer(text, *v as i128),
        ValueInteger::Int128(v) => push_integer(text, *v),
        ValueInteger::UInt128(v) => push_decimal(text, *v),
    }
}

impl Value {
    /// The literal as text.
    #[must_use]
    pub fn to_string(&self) -> (text: String)
        ensures
            text@ == self@.text(),
    {
        match self {
            Value::Integer(integer) => {
                let mut text = join(integer_name(integer), "(");
                push_number(&mut text, integer);
                text.append(")");
                text
            },
            Value::Float(ValueFloat::Float32(decimal)) => {
                let mut text = join("float32(", decimal.as_str());
                text.append(")");
                text
            },
            Value::Float(ValueFloat::Float64(decimal)) => {
                let mut text = join("float64(", decimal.as_str());
                text.append(")");
                text
            },
        }
    }
}

} // verus!

//! The instructions that the code generator asks of the backend.
//!
//! An expression is compiled to a sequence of instructions for a stack of
//! values: a constant pushes one value, a negation replaces the top value, a
//! binary instruction replaces the two top values by one. `generate` says
//! which sequence an expression compiles to, and `run` which types lie on
//! the stack after a sequence.

use crate::ast::binary_ope::BinaryOperator;
use crate::ast::expr::Tree;
use crate::ast::unary_ope::UnaryOperator;
use crate::compiler_data::data_type::{DataType, TypeId};
use crate::compiler_data::value::{Literal, ValueInteger};
use crate::main_error::Diagnostic;
use vstd::prelude::*;

verus! {

/// One request to the backend.
#[derive(Clone, Copy, Debug, PartialEq, Eq, Structural)]
pub enum Instr {
    /// Pushes an integer constant of at most 64 bits: the low bits of `bits`,
    /// as many as `ty` is wide.
    ConstInt { ty: TypeId, bits: u64, sign_extend: bool },
    /// Pushes a 128-bit integer constant with the bit pattern
    /// `high * 2^64 + low`.
    ConstWide { ty: TypeId, low: u64, high: u64 },
    /// Pushes the next floating-point constant of the program.
    ConstFloat { ty: TypeId },
    /// Negates the integer on top.
    IntNeg,
    /// Negates the float on top.
    FloatNeg,
    /// Adds the two integers on top.
    IntAdd,
    /// Subtracts the integer on top from the one below.
    IntSub,
    /// Multiplies the two integers on top.
    IntMul,
    /// Divides the signed integer below by the one on top, truncating.
    SignedDiv,
    /// Divides the unsigned integer below by the one on top.
    UnsignedDiv,
    /// Adds the two floats on top.
    FloatAdd,
    /// Subtracts the float on top from the one below.
    FloatSub,
    /// Multiplies the two floats on top.
    FloatMul,
    /// Divides the float below by the one on top.
    FloatDiv,
}

impl Instr {
    /// Whether the instruction pushes a constant. A constant is made
    /// without the builder, all other instructions are built by it.
    pub open spec fn is_constant(self) -> bool {
        self is ConstInt || self is ConstWide || self is ConstFloat
    }

    /// The type of the value that the instruction pushes on a stack of
    /// `types`: its own type for a constant, else the type of the top value.
    pub open spec fn pushes(self, types: Seq<TypeId>) -> TypeId {
        match self {
            Instr::ConstInt { ty, .. } => ty,
            Instr::ConstWide { ty, .. } => ty,
            Instr::ConstFloat { ty } => ty,
            _ => types.last(),
        }
    }

    /// The number of values that the instruction takes from the stack.
    pub open spec fn operands(self) -> nat {
        match self {
            Instr::ConstInt { .. } | Instr::ConstWide { .. } | Instr::ConstFloat { .. } => 0,
            Instr::IntNeg | Instr::FloatNeg => 1,
            _ => 2,
        }
    }
}

/// A floating-point constant: its type and its decimal text.
#[derive(Clone, Debug, PartialEq, Eq)]
pub struct FloatConstant {
    pub ty: TypeId,
    pub text: String,
}

/// What a floating-point constant is in contracts.
pub struct FloatText {
    pub ty: TypeId,
    pub text: Seq<char>,
}

impl View for FloatConstant {
    type V = FloatText;

    open spec fn view(&self) -> FloatText {
        FloatText { ty: self.ty, text: self.text@ }
    }
}

/// The low 64 bits of a 128-bit pattern.
pub open spec fn low_half(bits: u128) -> u64 {
    bits as u64
}

/// The high 64 bits of a 128-bit pattern.
pub open spec fn high_half(bits: u128) -> u64 {
    (bits >> 64) as u64
}

/// The 128-bit pattern made of two 64-bit halves.
pub open spec fn join_halves(low: u64, high: u64) -> u128 {
    ((high as u128) << 64) | (low as u128)
}

/// Splitting a 128-bit pattern into halves and joining them again loses no bit.
pub proof fn lemma_halves_round_trip(bits: u128)
    ensures
        join_halves(low_half(bits), high_half(bits)) == bits,
{
    assert((((bits >> 64) as u64) as u128) << 64 | ((bits as u64) as u128) == bits)
        by (bit_vector);
}

/// A signed 128-bit number comes back from its two's-complement halves.
pub proof fn lemma_signed_halves_round_trip(value: i128)
    ensures
        join_halves(low_half(value as u128), high_half(value as u128)) as i128 == value,
{
    lemma_halves_round_trip(value as u128);
    assert((value as u128) as i128 == value) by (bit_vector);
}

/// Two halves joined and split again are the same two halves.
pub proof fn lemma_halves_are_independent(low: u64, high: u64)
    ensures
        low_half(join_halves(low, high)) == low,
        high_half(join_halves(low, high)) == high,
{
    assert(((((high as u128) << 64) | (low as u128)) as u64) == low) by (bit_vector);
    assert((((((high as u128) << 64) | (low as u128)) >> 64) as u64) == high) by (bit_vector);
}

/// The instruction that pushes an integer literal: its two's-complement bit
/// pattern at its own type, in one piece up to 64 bits and in two halves at 128.
pub open spec fn integer_instr(value: ValueInteger) -> Instr {
    match value {
        ValueInteger::Int8(v) => Instr::ConstInt {
            ty: value.type_id(),
            bits: v as u64,
            sign_extend: true,
        },
        ValueInteger::UInt8(v) => Instr::ConstInt {
            ty: value.type_id(),
            bits: v as u64,
            sign_extend: false,
        },
        ValueInteger::Int16(v) => Instr::ConstInt {
            ty: value.type_id(),
            bits: v as u64,
            sign_extend: true,
        },
        ValueInteger::UInt16(v) => Instr::ConstInt {
            ty: value.type_id(),
            bits: v as u64,
            sign_extend: false,
        },
        ValueInteger::Int32(v) => Instr::ConstInt {
            ty: value.type_id(),
            bits: v as u64,
            sign_extend: true,
        },
        ValueInteger::UInt32(v) => Instr::ConstInt {
            ty: value.type_id(),
            bits: v as u64,
            sign_extend: false,
        },
        ValueInteger::Int64(v) => Instr::ConstInt {
            ty: value.type_id(),
            bits: v as u64,
            sign_extend: true,
        },
        ValueInteger::UInt64(v) => Instr::ConstInt {
            ty: value.type_id(),
            bits: v,
            sign_extend: false,
        },
        ValueInteger::Int128(v) => Instr::ConstWide {
            ty: value.type_id(),
            low: low_half(v as u128),
            high: high_half(v as u128),
        },
        ValueInteger::UInt128(v) => Instr::ConstWide {
            ty: value.type_id(),
            low: low_half(v),
            high: high_half(v),
        },
    }
}

/// The instruction that negates a value of type `ty`, for the types that have one.
pub open spec fn negation(ty: TypeId) -> Option<Instr> {
    if ty.is_integer() {
        Some(Instr::IntNeg)
    } else if ty.is_float() {
        Some(Instr::FloatNeg)
    } else {
        None
    }
}

/// The instruction for `ope` between two values of type `ty`. Division is
/// signed for signed integers and unsigned for unsigned ones. Power has no
/// instruction, and no operator has one on a type that is not numeric.
pub open spec fn arithmetic(ope: BinaryOperator, ty: TypeId) -> Option<Instr> {
    match ope {
        BinaryOperator::Plus => if ty.is_integer() {
            Some(Instr::IntAdd)
        } else if ty.is_float() {
            Some(Instr::FloatAdd)
        } else {
            None
        },
        BinaryOperator::Minus => if ty.is_integer() {
            Some(Instr::IntSub)
        } else if ty.is_float() {
            Some(Instr::FloatSub)
        } else {
            None
        },
        BinaryOperator::Multiply => if ty.is_integer() {
            Some(Instr::IntMul)
        } else if ty.is_float() {
            Some(Instr::FloatMul)
        } else {
            None
        },
        BinaryOperator::Divide => if ty.is_signed_integer() {
            Some(Instr::SignedDiv)
        } else if ty.is_unsigned_integer() {
            Some(Instr::UnsignedDiv)
        } else if ty.is_float() {
            Some(Instr::FloatDiv)
        } else {
            None
        },
        BinaryOperator::Power => None,
    }
}

/// The name of a type in messages: the registered one, empty without one.
pub open spec fn name_of_type(types: Map<u32, DataType>, ty: TypeId) -> Seq<char> {
    if types.contains_key(ty.0) {
        types[ty.0].name@
    } else {
        Seq::empty()
    }
}

/// The message for a negation of a type that has none.
pub open spec fn cannot_negate(name: Seq<char>) -> Seq<char> {
    "Cannot use a negative sign on type '"@ + name + "'."@
}

/// The message for operands of two types.
pub open spec fn type_mismatch(left: Seq<char>, right: Seq<char>) -> Seq<char> {
    "Expected the same types, but found '"@ + left + "' and '"@ + right + "'."@
}

/// The message for an operator without an instruction: power is not
/// implemented, any other operator does not exist on the type.
pub open spec fn no_instruction(ope: BinaryOperator, name: Seq<char>) -> Seq<char> {
    if ope == BinaryOperator::Power {
        "Operator '**' is not implemented."@
    } else {
        "Cannot use operator '"@ + ope.symbol() + "' on type '"@ + name + "'."@
    }
}

/// What an expression compiles to.
pub struct Code {
    /// The type of the expression's value.
    pub ty: TypeId,
    /// The instructions that leave the value on top of the stack.
    pub instrs: Seq<Instr>,
    /// The floating-point constants that the instructions push, in their order.
    pub floats: Seq<FloatText>,
}

/// The code of a literal: one constant of the literal's exact type.
pub open spec fn literal_code(value: Literal) -> Code {
    match value {
        Literal::Integer(integer) => Code {
            ty: integer.type_id(),
            instrs: seq![integer_instr(integer)],
            floats: Seq::empty(),
        },
        Literal::Float32(text) => Code {
            ty: value.type_id(),
            instrs: seq![Instr::ConstFloat { ty: value.type_id() }],
            floats: seq![FloatText { ty: value.type_id(), text }],
        },
        Literal::Float64(text) => Code {
            ty: value.type_id(),
            instrs: seq![Instr::ConstFloat { ty: value.type_id() }],
            floats: seq![FloatText { ty: value.type_id(), text }],
        },
    }
}

/// What `tree` compiles to, by a walk in post-order, or the first error of
/// that walk.
///
/// - A literal is one constant.
/// - Unary plus is its operand. Unary minus is its operand and a negation;
///   on a type without negation it is an error.
/// - A binary node is its left operand, its right operand and one
///   instruction. Operands of two types are an error; so is an operator
///   without an instruction for the type.
pub open spec fn generate(tree: Tree, types: Map<u32, DataType>) -> Result<Code, Diagnostic>
    decreases tree,
{
    match tree {
        Tree::Literal { value, .. } => Ok(literal_code(value)),
        Tree::Unary { pos, ope, rhs } => match generate(*rhs, types) {
            Err(error) => Err(error),
            Ok(operand) => match ope {
                UnaryOperator::Plus => Ok(operand),
                UnaryOperator::Minus => match negation(operand.ty) {
                    Some(instr) => Ok(Code { instrs: operand.instrs.push(instr), ..operand }),
                    None => Err(
                        Diagnostic { pos, msg: cannot_negate(name_of_type(types, operand.ty)) },
                    ),
                },
            },
        },
        Tree::Binary { pos, ope, lhs, rhs } => match generate(*lhs, types) {
            Err(error) => Err(error),
            Ok(left) => match generate(*rhs, types) {
                Err(error) => Err(error),
                Ok(right) => if left.ty != right.ty {
                    Err(
                        Diagnostic {
                            pos,
                            msg: type_mismatch(
                                name_of_type(types, left.ty),
                                name_of_type(types, right.ty),
                            ),
                        },
                    )
                } else {
                    match arithmetic(ope, left.ty) {
                        Some(instr) => Ok(
                            Code {
                                ty: left.ty,
                                instrs: (left.instrs + right.instrs).push(instr),
                                floats: left.floats + right.floats,
                            },
                        ),
                        None => Err(
                            Diagnostic { pos, msg: no_instruction(ope, name_of_type(types, left.ty)) },
                        ),
                    }
                },
            },
        },
    }
}

/// The types of the values on the stack, and how many float constants were pushed.
pub struct Stack {
    pub types: Seq<TypeId>,
    pub floats_used: nat,
}

/// What `instr` makes of a stack; `None` where the stack does not hold what
/// the instruction needs, or the constant is of the wrong type.
pub open spec fn step(instr: Instr, floats: Seq<FloatText>, stack: Stack) -> Option<Stack> {
    let depth = stack.types.len();
    match instr {
        Instr::ConstInt { ty, .. } => if ty.is_integer() && !ty.is_wide() {
            Some(Stack { types: stack.types.push(ty), ..stack })
        } else {
            None
        },
        Instr::ConstWide { ty, .. } => if ty.is_wide() {
            Some(Stack { types: stack.types.push(ty), ..stack })
        } else {
            None
        },
        Instr::ConstFloat { ty } => if ty.is_float() && stack.floats_used < floats.len()
            && floats[stack.floats_used as int].ty == ty {
            Some(Stack { types: stack.types.push(ty), floats_used: stack.floats_used + 1 })
        } else {
            None
        },
        Instr::IntNeg => if depth >= 1 && stack.types[depth - 1].is_integer() {
            Some(stack)
        } else {
            None
        },
        Instr::FloatNeg => if depth >= 1 && stack.types[depth - 1].is_float() {
            Some(stack)
        } else {
            None
        },
        Instr::IntAdd | Instr::IntSub | Instr::IntMul => if depth >= 2 && stack.types[depth - 1]
            == stack.types[depth - 2] && stack.types[depth - 1].is_integer() {
            Some(Stack { types: stack.types.drop_last(), ..stack })
        } else {
            None
        },
        Instr::SignedDiv => if depth >= 2 && stack.types[depth - 1] == stack.types[depth - 2]
            && stack.types[depth - 1].is_signed_integer() {
            Some(Stack { types: stack.types.drop_last(), ..stack })
        } else {
            None
        },
        Instr::UnsignedDiv => if depth >= 2 && stack.types[depth - 1] == stack.types[depth - 2]
            && stack.types[depth - 1].is_unsigned_integer() {
            Some(Stack { types: stack.types.drop_last(), ..stack })
        } else {
            None
        },
        Instr::FloatAdd | Instr::FloatSub | Instr::FloatMul | Instr::FloatDiv => if depth >= 2
            && stack.types[depth - 1] == stack.types[depth - 2] && stack.types[depth
            - 1].is_float() {
            Some(Stack { types: stack.types.drop_last(), ..stack })
        } else {
            None
        },
    }
}

/// What the instructions `instrs`, one after the other, make of a stack.
pub open spec fn run(instrs: Seq<Instr>, floats: Seq<FloatText>, stack: Stack) -> Option<Stack>
    decreases instrs.len(),
{
    if instrs.len() == 0 {
        Some(stack)
    } else {
        match run(instrs.drop_last(), floats, stack) {
            Some(before) => step(instrs.last(), floats, before),
            None => None,
        }
    }
}

/// Running two sequences one after the other is running their concatenation.
pub proof fn lemma_run_concat(
    first: Seq<Instr>,
    second: Seq<Instr>,
    floats: Seq<FloatText>,
    stack: Stack,
)
    ensures
        run(first + second, floats, stack) == match run(first, floats, stack) {
            Some(between) => run(second, floats, between),
            None => None,
        },
    decreases second.len(),
{
    if second.len() == 0 {
        assert(first + second =~= first);
    } else {
        assert((first + second).drop_last() =~= first + second.drop_last());
        assert((first + second).last() == second.last());
        lemma_run_concat(first, second.drop_last(), floats, stack);
    }
}

/// Where a run goes through, the run of every prefix goes through, and one
/// more instruction is one more step.
pub proof fn lemma_run_prefix(instrs: Seq<Instr>, floats: Seq<FloatText>, stack: Stack, n: int)
    requires
        run(instrs, floats, stack) is Some,
        0 <= n <= instrs.len(),
    ensures
        run(instrs.take(n), floats, stack) is Some,
        n < instrs.len() ==> run(instrs.take(n + 1), floats, stack) == step(
            instrs[n],
            floats,
            run(instrs.take(n), floats, stack)->0,
        ),
    decreases instrs.len(),
{
    if n == instrs.len() {
        assert(instrs.take(n) =~= instrs);
    } else {
        assert(instrs.drop_last().take(n) =~= instrs.take(n));
        lemma_run_prefix(instrs.drop_last(), floats, stack, n);
        assert(instrs.take(n + 1).drop_last() =~= instrs.take(n));
        assert(instrs.take(n + 1).last() == instrs[n]);
    }
}

/// Float constants behind the ones in use change nothing about a run.
pub proof fn lemma_run_more_floats(
    instrs: Seq<Instr>,
    floats: Seq<FloatText>,
    more: Seq<FloatText>,
    stack: Stack,
)
    requires
        run(instrs, floats, stack) is Some,
    ensures
        run(instrs, floats + more, stack) == run(instrs, floats, stack),
    decreases instrs.len(),
{
    if instrs.len() > 0 {
        lemma_run_more_floats(instrs.drop_last(), floats, more, stack);
        let before = run(instrs.drop_last(), floats, stack)->0;
        if instrs.last() is ConstFloat {
            assert((floats + more)[before.floats_used as int] == floats[before.floats_used as int]);
        }
    }
}

/// The stack after code that pushed one value of type `ty` and `floats`
/// float constants.
pub open spec fn pushed(stack: Stack, ty: TypeId, floats: nat) -> Stack {
    Stack { types: stack.types.push(ty), floats_used: stack.floats_used + floats }
}

/// Generated code is well-typed: its value is of a numeric type, and run on
/// any stack it pushes that one value and uses each of its float constants
/// once, in their order behind the constants `before` that were used already.
pub proof fn lemma_generate_is_typed(
    tree: Tree,
    types: Map<u32, DataType>,
    before: Seq<FloatText>,
    stack: Stack,
)
    requires
        generate(tree, types) is Ok,
        stack.floats_used == before.len(),
    ensures
        generate(tree, types)->Ok_0.ty.is_numeric(),
        run(
            generate(tree, types)->Ok_0.instrs,
            before + generate(tree, types)->Ok_0.floats,
            stack,
        ) == Some(
            pushed(
                stack,
                generate(tree, types)->Ok_0.ty,
                generate(tree, types)->Ok_0.floats.len(),
            ),
        ),
    decreases tree,
{
    let code = generate(tree, types)->Ok_0;
    let all = before + code.floats;
    match tree {
        Tree::Literal { value, .. } => {
            assert(code.instrs.drop_last() =~= Seq::empty());
            assert(run(code.instrs.drop_last(), all, stack) == Some(stack));
            match value {
                Literal::Integer(integer) => {},
                _ => {
                    assert(all[before.len() as int] == code.floats[0]);
                },
            }
        },
        Tree::Unary { ope, rhs, .. } => {
            lemma_generate_is_typed(*rhs, types, before, stack);
            if ope == UnaryOperator::Minus {
                let operand = generate(*rhs, types)->Ok_0;
                assert(code.instrs.drop_last() =~= operand.instrs);
                assert(code.instrs.last() == negation(operand.ty)->0);
            }
        },
        Tree::Binary { ope, lhs, rhs, .. } => {
            let left = generate(*lhs, types)->Ok_0;
            let right = generate(*rhs, types)->Ok_0;
            lemma_generate_is_typed(*lhs, types, before, stack);
            let between = pushed(stack, left.ty, left.floats.len());
            lemma_generate_is_typed(*rhs, types, before + left.floats, between);
            assert(all =~= (before + left.floats) + right.floats);
            lemma_run_more_floats(left.instrs, before + left.floats, right.floats, stack);
            assert(run(left.instrs, all, stack) == Some(between));
            assert(run(right.instrs, all, between) == Some(
                pushed(between, right.ty, right.floats.len()),
            ));
            lemma_run_concat(left.instrs, right.instrs, all, stack);
            let after = pushed(between, right.ty, right.floats.len());
            assert(run(left.instrs + right.instrs, all, stack) == Some(after));
            assert(code.instrs.drop_last() =~= left.instrs + right.instrs);
            assert(code.instrs.last() == arithmetic(ope, left.ty)->0);
            assert(after.types.drop_last() =~= stack.types.push(left.ty));
            assert(after.types[after.types.len() - 1] == right.ty);
            assert(after.types[after.types.len() - 2] == left.ty);
            assert(step(code.instrs.last(), all, after) == Some(
                pushed(stack, code.ty, code.floats.len()),
            ));
        },
    }
}

} // verus!

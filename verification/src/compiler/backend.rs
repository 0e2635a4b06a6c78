//! The LLVM backend, as far as the code generator asks for it.
//!
//! Every function here makes one call into the `inkwell` crate. Verus takes
//! their contracts on trust; none of them promises anything about the values
//! that the backend hands back, which verified code only passes on. A
//! `requires` leaves out the arguments on which the call would not return.
//! The backend does not check that operands are of one type, nor that a
//! call's argument fits its function: the code generator sees to both.

use vstd::prelude::*;

verus! {

#[verifier::external_type_specification]
#[verifier::external_body]
pub struct ExContext(inkwell::context::Context);

#[verifier::external_type_specification]
#[verifier::external_body]
pub struct ExModule<'ctx>(inkwell::module::Module<'ctx>);

#[verifier::external_type_specification]
#[verifier::external_body]
pub struct ExBuilder<'ctx>(inkwell::builder::Builder<'ctx>);

#[verifier::external_type_specification]
#[verifier::external_body]
pub struct ExBuilderError(inkwell::builder::BuilderError);

#[verifier::external_type_specification]
#[verifier::external_body]
pub struct ExIntValue<'ctx>(inkwell::values::IntValue<'ctx>);

#[verifier::external_type_specification]
#[verifier::external_body]
pub struct ExFloatValue<'ctx>(inkwell::values::FloatValue<'ctx>);

#[verifier::external_type_specification]
#[verifier::external_body]
pub struct ExPointerValue<'ctx>(inkwell::values::PointerValue<'ctx>);

#[verifier::external_type_specification]
#[verifier::external_body]
pub struct ExFunctionValue<'ctx>(inkwell::values::FunctionValue<'ctx>);

#[verifier::external_type_specification]
#[verifier::external_body]
pub struct ExInstructionValue<'ctx>(inkwell::values::InstructionValue<'ctx>);

#[verifier::external_type_specification]
#[verifier::external_body]
pub struct ExBasicBlock<'ctx>(inkwell::basic_block::BasicBlock<'ctx>);

#[verifier::external_type_specification]
#[verifier::external_body]
pub struct ExIntType<'ctx>(inkwell::types::IntType<'ctx>);

#[verifier::external_type_specification]
#[verifier::external_body]
pub struct ExFloatType<'ctx>(inkwell::types::FloatType<'ctx>);

#[verifier::external_type_specification]
#[verifier::external_body]
pub struct ExPointerType<'ctx>(inkwell::types::PointerType<'ctx>);

#[verifier::external_type_specification]
#[verifier::external_body]
pub struct ExVoidType<'ctx>(inkwell::types::VoidType<'ctx>);

#[verifier::external_type_specification]
#[verifier::external_body]
pub struct ExFunctionType<'ctx>(inkwell::types::FunctionType<'ctx>);

#[verifier::external_type_specification]
#[verifier::external_body]
pub struct ExAttribute(inkwell::attributes::Attribute);

/// The one parameter of a print routine, or none.
pub enum Parameter<'ctx> {
    Nothing,
    Int(inkwell::types::IntType<'ctx>),
    Float(inkwell::types::FloatType<'ctx>),
    Pointer(inkwell::types::PointerType<'ctx>),
}

/// The one argument of a call of a print routine, or none.
pub enum Argument<'ctx> {
    Nothing,
    Int(inkwell::values::IntValue<'ctx>),
    Float(inkwell::values::FloatValue<'ctx>),
    Pointer(inkwell::values::PointerValue<'ctx>),
}

/// `Context::create_module`: a new, empty module called `name`.
#[verifier::external_body]
pub(crate) fn new_module<'ctx>(ctx: &'ctx inkwell::context::Context, name: &str) -> (module:
    inkwell::module::Module<'ctx>) {
    ctx.create_module(name)
}

/// `Context::create_builder`: a new builder without a position.
#[verifier::external_body]
pub(crate) fn new_builder<'ctx>(ctx: &'ctx inkwell::context::Context) -> (builder:
    inkwell::builder::Builder<'ctx>) {
    ctx.create_builder()
}

/// `Context::custom_width_int_type`: the integer type of `bits` bits. LLVM
/// has no integer type of width 0; widths up to 128 are all this library asks for.
#[verifier::external_body]
pub(crate) fn int_type<'ctx>(ctx: &'ctx inkwell::context::Context, bits: u32) -> (ty:
    inkwell::types::IntType<'ctx>)
    requires
        1 <= bits <= 128,
{
    ctx.custom_width_int_type(bits)
}

/// `Context::void_type`: the type of a routine that returns nothing.
#[verifier::external_body]
pub(crate) fn void_type<'ctx>(ctx: &'ctx inkwell::context::Context) -> (ty:
    inkwell::types::VoidType<'ctx>) {
    ctx.void_type()
}

/// `Context::append_basic_block`: a new block called `name` at the end of `function`.
#[verifier::external_body]
pub(crate) fn append_block<'ctx>(
    ctx: &'ctx inkwell::context::Context,
    function: inkwell::values::FunctionValue<'ctx>,
    name: &str,
) -> (block: inkwell::basic_block::BasicBlock<'ctx>) {
    ctx.append_basic_block(function, name)
}

/// `Attribute::get_named_enum_kind_id`: the number of the attribute kind
/// called `name`, 0 where LLVM knows none of that name.
#[verifier::external_body]
pub(crate) fn attribute_kind(name: &str) -> (kind: u32) {
    inkwell::attributes::Attribute::get_named_enum_kind_id(name)
}

/// `Context::create_enum_attribute`: the attribute with the kind number
/// `kind` and with `value`. The number 0 stands for no attribute.
#[verifier::external_body]
pub(crate) fn enum_attribute(ctx: &inkwell::context::Context, kind: u32, value: u64) -> (attribute:
    inkwell::attributes::Attribute)
    requires
        kind != 0,
{
    ctx.create_enum_attribute(kind, value)
}

/// `FunctionValue::add_attribute`: attaches `attribute` to `function` itself.
#[verifier::external_body]
pub(crate) fn add_function_attribute<'ctx>(
    function: inkwell::values::FunctionValue<'ctx>,
    attribute: inkwell::attributes::Attribute,
) {
    function.add_attribute(inkwell::attributes::AttributeLoc::Function, attribute)
}

/// `IntType::fn_type`: the type of a routine without parameters that returns `result`.
#[verifier::external_body]
pub(crate) fn int_function_type<'ctx>(result: inkwell::types::IntType<'ctx>) -> (ty:
    inkwell::types::FunctionType<'ctx>) {
    result.fn_type(&[], false)
}

/// `VoidType::fn_type`: the type of a routine that takes `parameter` and
/// returns nothing.
#[verifier::external_body]
pub(crate) fn void_function_type<'ctx>(
    void: inkwell::types::VoidType<'ctx>,
    parameter: Parameter<'ctx>,
) -> (ty: inkwell::types::FunctionType<'ctx>) {
    match parameter {
        Parameter::Nothing => void.fn_type(&[], false),
        Parameter::Int(ty) => void.fn_type(&[ty.into()], false),
        Parameter::Float(ty) => void.fn_type(&[ty.into()], false),
        Parameter::Pointer(ty) => void.fn_type(&[ty.into()], false),
    }
}

/// `Module::add_function`: declares a routine called `name` of type `ty`
/// in `module`, with the default linkage.
#[verifier::external_body]
pub(crate) fn add_function<'ctx>(
    module: &inkwell::module::Module<'ctx>,
    name: &str,
    ty: inkwell::types::FunctionType<'ctx>,
) -> (function: inkwell::values::FunctionValue<'ctx>) {
    module.add_function(name, ty, None)
}

/// `Builder::position_at_end`: further instructions go to the end of `block`.
#[verifier::external_body]
pub(crate) fn position_at_end<'ctx>(
    builder: &inkwell::builder::Builder<'ctx>,
    block: inkwell::basic_block::BasicBlock<'ctx>,
) {
    builder.position_at_end(block)
}

/// `IntType::const_int`: the constant of type `ty` with the low bits of `bits`.
#[verifier::external_body]
pub(crate) fn const_int<'ctx>(ty: inkwell::types::IntType<'ctx>, bits: u64, sign_extend: bool) -> (value:
    inkwell::values::IntValue<'ctx>) {
    ty.const_int(bits, sign_extend)
}

/// `IntType::const_int_arbitrary_precision`: the constant of type `ty` made
/// of the 64-bit words `low` and `high`, least significant first.
#[verifier::external_body]
pub(crate) fn const_wide<'ctx>(ty: inkwell::types::IntType<'ctx>, low: u64, high: u64) -> (value:
    inkwell::values::IntValue<'ctx>) {
    ty.const_int_arbitrary_precision(&[low, high])
}

/// `Builder::build_int_neg`: the negation of an integer. Fails where the
/// builder has no position.
#[verifier::external_body]
pub(crate) fn build_int_neg<'ctx>(
    builder: &inkwell::builder::Builder<'ctx>,
    value: inkwell::values::IntValue<'ctx>,
    name: &str,
) -> (built: Result<inkwell::values::IntValue<'ctx>, inkwell::builder::BuilderError>) {
    builder.build_int_neg(value, name)
}

/// `Builder::build_float_neg`: the negation of a float. Fails where the
/// builder has no position.
#[verifier::external_body]
pub(crate) fn build_float_neg<'ctx>(
    builder: &inkwell::builder::Builder<'ctx>,
    value: inkwell::values::FloatValue<'ctx>,
    name: &str,
) -> (built: Result<inkwell::values::FloatValue<'ctx>, inkwell::builder::BuilderError>) {
    builder.build_float_neg(value, name)
}

/// `Builder::build_int_add`: the sum of two integers. Fails where the
/// builder has no position.
#[verifier::external_body]
pub(crate) fn build_int_add<'ctx>(
    builder: &inkwell::builder::Builder<'ctx>,
    lhs: inkwell::values::IntValue<'ctx>,
    rhs: inkwell::values::IntValue<'ctx>,
    name: &str,
) -> (built: Result<inkwell::values::IntValue<'ctx>, inkwell::builder::BuilderError>) {
    builder.build_int_add(lhs, rhs, name)
}

/// `Builder::build_int_sub`: the difference of two integers. Fails where the
/// builder has no position.
#[verifier::external_body]
pub(crate) fn build_int_sub<'ctx>(
    builder: &inkwell::builder::Builder<'ctx>,
    lhs: inkwell::values::IntValue<'ctx>,
    rhs: inkwell::values::IntValue<'ctx>,
    name: &str,
) -> (built: Result<inkwell::values::IntValue<'ctx>, inkwell::builder::BuilderError>) {
    builder.build_int_sub(lhs, rhs, name)
}

/// `Builder::build_int_mul`: the product of two integers. Fails where the
/// builder has no position.
#[verifier::external_body]
pub(crate) fn build_int_mul<'ctx>(
    builder: &inkwell::builder::Builder<'ctx>,
    lhs: inkwell::values::IntValue<'ctx>,
    rhs: inkwell::values::IntValue<'ctx>,
    name: &str,
) -> (built: Result<inkwell::values::IntValue<'ctx>, inkwell::builder::BuilderError>) {
    builder.build_int_mul(lhs, rhs, name)
}

/// `Builder::build_int_signed_div`: the quotient of two signed integers.
/// Fails where the builder has no position.
#[verifier::external_body]
pub(crate) fn build_int_signed_div<'ctx>(
    builder: &inkwell::builder::Builder<'ctx>,
    lhs: inkwell::values::IntValue<'ctx>,
    rhs: inkwell::values::IntValue<'ctx>,
    name: &str,
) -> (built: Result<inkwell::values::IntValue<'ctx>, inkwell::builder::BuilderError>) {
    builder.build_int_signed_div(lhs, rhs, name)
}

/// `Builder::build_int_unsigned_div`: the quotient of two unsigned integers.
/// Fails where the builder has no position.
#[verifier::external_body]
pub(crate) fn build_int_unsigned_div<'ctx>(
    builder: &inkwell::builder::Builder<'ctx>,
    lhs: inkwell::values::IntValue<'ctx>,
    rhs: inkwell::values::IntValue<'ctx>,
    name: &str,
) -> (built: Result<inkwell::values::IntValue<'ctx>, inkwell::builder::BuilderError>) {
    builder.build_int_unsigned_div(lhs, rhs, name)
}

/// `Builder::build_float_add`: the sum of two floats. Fails where the
/// builder has no position.
#[verifier::external_body]
pub(crate) fn build_float_add<'ctx>(
    builder: &inkwell::builder::Builder<'ctx>,
    lhs: inkwell::values::FloatValue<'ctx>,
    rhs: inkwell::values::FloatValue<'ctx>,
    name: &str,
) -> (built: Result<inkwell::values::FloatValue<'ctx>, inkwell::builder::BuilderError>) {
    builder.build_float_add(lhs, rhs, name)
}

/// `Builder::build_float_sub`: the difference of two floats. Fails where the
/// builder has no position.
#[verifier::external_body]
pub(crate) fn build_float_sub<'ctx>(
    builder: &inkwell::builder::Builder<'ctx>,
    lhs: inkwell::values::FloatValue<'ctx>,
    rhs: inkwell::values::FloatValue<'ctx>,
    name: &str,
) -> (built: Result<inkwell::values::FloatValue<'ctx>, inkwell::builder::BuilderError>) {
    builder.build_float_sub(lhs, rhs, name)
}

/// `Builder::build_float_mul`: the product of two floats. Fails where the
/// builder has no position.
#[verifier::external_body]
pub(crate) fn build_float_mul<'ctx>(
    builder: &inkwell::builder::Builder<'ctx>,
    lhs: inkwell::values::FloatValue<'ctx>,
    rhs: inkwell::values::FloatValue<'ctx>,
    name: &str,
) -> (built: Result<inkwell::values::FloatValue<'ctx>, inkwell::builder::BuilderError>) {
    builder.build_float_mul(lhs, rhs, name)
}

/// `Builder::build_float_div`: the quotient of two floats. Fails where the
/// builder has no position.
#[verifier::external_body]
pub(crate) fn build_float_div<'ctx>(
    builder: &inkwell::builder::Builder<'ctx>,
    lhs: inkwell::values::FloatValue<'ctx>,
    rhs: inkwell::values::FloatValue<'ctx>,
    name: &str,
) -> (built: Result<inkwell::values::FloatValue<'ctx>, inkwell::builder::BuilderError>) {
    builder.build_float_div(lhs, rhs, name)
}

/// `Builder::build_call`: a call of `function` with `argument`. Fails where
/// the builder has no position.
#[verifier::external_body]
pub(crate) fn build_call<'ctx>(
    builder: &inkwell::builder::Builder<'ctx>,
    function: inkwell::values::FunctionValue<'ctx>,
    argument: Argument<'ctx>,
    name: &str,
) -> (built: Result<(), inkwell::builder::BuilderError>) {
    match argument {
        Argument::Nothing => builder.build_call(function, &[], name).map(|_| ()),
        Argument::Int(value) => builder.build_call(function, &[value.into()], name).map(|_| ()),
        Argument::Float(value) => builder.build_call(function, &[value.into()], name).map(|_| ()),
        Argument::Pointer(value) => builder.build_call(function, &[value.into()], name).map(|_| ()),
    }
}

/// `Builder::build_alloca`: a stack slot for one value of type `ty`. Fails
/// where the builder has no position.
#[verifier::external_body]
pub(crate) fn build_alloca<'ctx>(
    builder: &inkwell::builder::Builder<'ctx>,
    ty: inkwell::types::IntType<'ctx>,
    name: &str,
) -> (built: Result<inkwell::values::PointerValue<'ctx>, inkwell::builder::BuilderError>) {
    builder.build_alloca(ty, name)
}

/// `Builder::build_store`: stores `value` to the slot `ptr`. Fails where the
/// builder has no position.
#[verifier::external_body]
pub(crate) fn build_store<'ctx>(
    builder: &inkwell::builder::Builder<'ctx>,
    ptr: inkwell::values::PointerValue<'ctx>,
    value: inkwell::values::IntValue<'ctx>,
) -> (built: Result<(), inkwell::builder::BuilderError>) {
    builder.build_store(ptr, value).map(|_| ())
}

/// `Builder::build_return`: returns `value` from the routine. Fails where
/// the builder has no position.
#[verifier::external_body]
pub(crate) fn build_return<'ctx>(
    builder: &inkwell::builder::Builder<'ctx>,
    value: inkwell::values::IntValue<'ctx>,
) -> (built: Result<(), inkwell::builder::BuilderError>) {
    builder.build_return(Some(&value)).map(|_| ())
}

/// `FloatValue::get_type`: the type of a float.
#[verifier::external_body]
pub(crate) fn float_value_type<'ctx>(value: inkwell::values::FloatValue<'ctx>) -> (ty:
    inkwell::types::FloatType<'ctx>) {
    value.get_type()
}

/// `PointerValue::get_type`: the type of a pointer.
#[verifier::external_body]
pub(crate) fn pointer_value_type<'ctx>(value: inkwell::values::PointerValue<'ctx>) -> (ty:
    inkwell::types::PointerType<'ctx>) {
    value.get_type()
}

/// `PointerValue::as_instruction`: the instruction that computes the
/// pointer, if an instruction does.
#[verifier::external_body]
pub(crate) fn as_instruction<'ctx>(value: inkwell::values::PointerValue<'ctx>) -> (instruction:
    Option<inkwell::values::InstructionValue<'ctx>>) {
    value.as_instruction()
}

/// `InstructionValue::set_alignment`: aligns the memory that `instruction`
/// allocates or accesses. Says whether the backend took the alignment: it
/// refuses one that is no power of two, and an instruction of another kind.
#[verifier::external_body]
pub(crate) fn set_alignment<'ctx>(
    instruction: inkwell::values::InstructionValue<'ctx>,
    alignment: u32,
) -> (taken: bool) {
    instruction.set_alignment(alignment).is_ok()
}

/// `Module::print_to_string`: the module as textual intermediate representation.
#[verifier::external_body]
pub(crate) fn module_text<'ctx>(module: &inkwell::module::Module<'ctx>) -> (text: Vec<u8>) {
    module.print_to_string().to_bytes().to_vec()
}

/// `Module::write_bitcode_to_memory`: the module as serialized bitcode.
#[verifier::external_body]
pub(crate) fn module_bitcode<'ctx>(module: &inkwell::module::Module<'ctx>) -> (bitcode: Vec<u8>) {
    module.write_bitcode_to_memory().as_slice().to_vec()
}

} // verus!

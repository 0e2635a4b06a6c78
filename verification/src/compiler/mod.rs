//! The code generator: a type-directed walk of the expression tree.
//!
//! Compilation has two steps. `Compiler::plan` walks the tree in post-order,
//! checks the types and describes the whole entry routine: its name, its
//! instructions, the print routine and how the value is passed to it, the
//! routine that ends the line, and the status returned; what it returns is
//! fixed by `routine`. `Compiler::compile` then hands those
//! instructions to the LLVM backend one by one and returns the module's text
//! or bitcode. Writing the artifact to a file is left to the caller, and so
//! is the making of floating-point constants, for which `compile` takes a
//! function.

pub mod backend;
pub mod error;
pub mod instruction;

use crate::args::{ArgContext, OptionArg};
use crate::ast::binary_ope::BinaryOperator;
use crate::ast::expr::{tree_of, Expr, ExprBinary, ExprLiteral, ExprType, ExprUnary, Tree};
use crate::ast::unary_ope::UnaryOperator;
use crate::compiler::backend::{Argument, Parameter};
use crate::compiler::error::{CompileError, CompileErrorList, CompileResultList};
use crate::compiler::instruction::{
    arithmetic,
    generate,
    integer_instr,
    lemma_generate_is_typed,
    lemma_run_prefix,
    name_of_type,
    negation,
    run,
    step,
    FloatConstant,
    FloatText,
    Instr,
    Stack,
};
use crate::compiler_data::data_type::{DataType, TypeId, TypeInterner};
use crate::compiler_data::position::Position;
use crate::compiler_data::value::{Value, ValueFloat, ValueInteger};
use crate::main_error::Diagnostic;
use crate::text::join;
use vstd::pervasive::unreached;
use vstd::prelude::*;

verus! {

/// Whether the options ask for an entry routine that is not optimized.
pub open spec fn wants_no_optimize(options: Seq<OptionArg>) -> bool {
    exists|i: int| 0 <= i < options.len() && options[i] is NoOptimize
}

/// Whether the options ask for textual output.
pub open spec fn wants_text(options: Seq<OptionArg>) -> bool {
    exists|i: int| 0 <= i < options.len() && options[i] is EmitLLVM
}

/// The entry routine of a compiled expression.
#[derive(Clone, Debug, PartialEq, Eq)]
pub struct Program {
    /// Whether the routine carries the do-not-optimize marker.
    pub no_optimize: bool,
    /// The name of the attribute that is the do-not-optimize marker.
    pub marker_symbol: String,
    /// Whether the artifact is text rather than bitcode.
    pub emit_text: bool,
    /// The instructions that compute the expression's value.
    pub code: Vec<Instr>,
    /// The floating-point constants that the instructions push, in their order.
    pub floats: Vec<FloatConstant>,
    /// The type of the value.
    pub result: TypeId,
    /// The name of the external routine that prints the value.
    pub print_symbol: String,
    /// Whether the value is stored in a stack slot and the print routine
    /// gets a pointer to it.
    pub by_pointer: bool,
    /// The alignment of that stack slot in bytes; 0 where there is none.
    pub slot_alignment: u32,
    /// The name of the entry routine.
    pub entry_symbol: String,
    /// The name of the external routine that ends the output line, called
    /// behind the print routine.
    pub newline_symbol: String,
    /// The status that the entry routine returns.
    pub status: u32,
    /// The width of the status in bits.
    pub status_bits: u32,
}

/// What an entry routine is in contracts.
pub struct Routine {
    pub no_optimize: bool,
    pub marker_symbol: Seq<char>,
    pub emit_text: bool,
    pub code: Seq<Instr>,
    pub floats: Seq<FloatText>,
    pub result: TypeId,
    pub print_symbol: Seq<char>,
    pub by_pointer: bool,
    pub slot_alignment: u32,
    pub entry_symbol: Seq<char>,
    pub newline_symbol: Seq<char>,
    pub status: u32,
    pub status_bits: u32,
}

impl View for Program {
    type V = Routine;

    open spec fn view(&self) -> Routine {
        Routine {
            no_optimize: self.no_optimize,
            marker_symbol: self.marker_symbol@,
            emit_text: self.emit_text,
            code: self.code@,
            floats: self.floats@.map_values(|constant: FloatConstant| constant@),
            result: self.result,
            print_symbol: self.print_symbol@,
            by_pointer: self.by_pointer,
            slot_alignment: self.slot_alignment,
            entry_symbol: self.entry_symbol@,
            newline_symbol: self.newline_symbol@,
            status: self.status,
            status_bits: self.status_bits,
        }
    }
}

impl Routine {
    /// The instructions leave exactly one value, of the result's type, and
    /// use every float constant; a 128-bit result, and no other, goes by
    /// pointer; the status has a width that an integer type can have.
    pub open spec fn well_typed(self) -> bool {
        &&& self.result.is_numeric()
        &&& self.by_pointer == self.result.is_wide()
        &&& 1 <= self.status_bits <= 128
        &&& run(self.code, self.floats, Stack { types: Seq::empty(), floats_used: 0 }) == Some(
            Stack { types: seq![self.result], floats_used: self.floats.len() },
        )
    }
}

/// The name of the external routine that prints a value of the type called `name`.
pub open spec fn print_symbol(name: Seq<char>) -> Seq<char> {
    "print_"@ + name
}

/// The name of the external routine that ends the output line.
pub open spec fn println_symbol() -> Seq<char> {
    "println"@
}

/// The name of the entry routine.
pub open spec fn entry_symbol() -> Seq<char> {
    "main"@
}

/// The name of the attribute that keeps a routine from being optimized.
pub open spec fn marker_symbol() -> Seq<char> {
    "optnone"@
}

/// The alignment in bytes of the stack slot for a value that goes by pointer.
pub const SLOT_ALIGNMENT: u32 = 16;

/// The status that the entry routine returns: success.
pub const STATUS_SUCCESS: u32 = 0;

/// The width in bits of the status that the entry routine returns.
pub const STATUS_BITS: u32 = 32;

/// The entry routine that `tree` compiles to: a routine called `main`,
/// marked with the attribute `optnone` where it is not to be optimized, with
/// the code of the expression, then a call of the print routine named after
/// the type of its value, with the value itself or, for a 128-bit value,
/// with a pointer to a 16-byte-aligned stack slot that holds it, then a call
/// of the routine `println`, which ends the line, then the return of the
/// 32-bit status 0. A tree with a type error has none.
pub open spec fn routine(
    tree: Tree,
    types: Map<u32, DataType>,
    no_optimize: bool,
    emit_text: bool,
) -> Result<Routine, Diagnostic> {
    match generate(tree, types) {
        Err(error) => Err(error),
        Ok(code) => Ok(
            Routine {
                no_optimize,
                marker_symbol: marker_symbol(),
                emit_text,
                code: code.instrs,
                floats: code.floats,
                result: code.ty,
                print_symbol: print_symbol(name_of_type(types, code.ty)),
                by_pointer: code.ty.is_wide(),
                slot_alignment: if code.ty.is_wide() {
                    SLOT_ALIGNMENT
                } else {
                    0
                },
                entry_symbol: entry_symbol(),
                newline_symbol: println_symbol(),
                status: STATUS_SUCCESS,
                status_bits: STATUS_BITS,
            },
        ),
    }
}

/// The error for a backend that did not take an instruction.
pub open spec fn backend_failure(pos: Position) -> Diagnostic {
    Diagnostic { pos, msg: "The backend refused an instruction."@ }
}

/// The file name extension of an artifact: `ll` for text, `bc` for bitcode.
pub open spec fn artifact_extension(emit_text: bool) -> Seq<char> {
    if emit_text {
        "ll"@
    } else {
        "bc"@
    }
}

/// A compiled module, ready to be written to a file.
#[derive(Clone, Debug, PartialEq, Eq)]
pub struct Artifact {
    /// The extension of the file to write, without the dot.
    pub extension: String,
    /// The contents of the file.
    pub bytes: Vec<u8>,
}

/// A value that the backend computed: an integer or a float.
pub enum BackendValue<'ctx> {
    Int(inkwell::values::IntValue<'ctx>),
    Float(inkwell::values::FloatValue<'ctx>),
}

/// A value on the code generator's stack, with its type.
pub struct Slot<'ctx> {
    pub ty: TypeId,
    pub value: BackendValue<'ctx>,
}

/// The value of a slot is of the kind that its type says.
pub open spec fn slot_ok<'ctx>(slot: Slot<'ctx>) -> bool {
    &&& slot.ty.is_integer() ==> slot.value is Int
    &&& slot.ty.is_float() ==> slot.value is Float
}

/// The types of the values on a stack, bottom first.
pub open spec fn stack_types<'ctx>(slots: Seq<Slot<'ctx>>) -> Seq<TypeId> {
    slots.map_values(|slot: Slot<'ctx>| slot.ty)
}

/// The instruction that negates a value of type `ty`, for the types that have one.
pub fn negation_for(ty: TypeId) -> (instr: Option<Instr>)
    ensures
        instr == negation(ty),
{
    if ty.is_integer() {
        Some(Instr::IntNeg)
    } else if ty.is_float() {
        Some(Instr::FloatNeg)
    } else {
        None
    }
}

/// The instruction for `ope` between two values of type `ty`, for the
/// operators and types that have one.
pub fn arithmetic_for(ope: &BinaryOperator, ty: TypeId) -> (instr: Option<Instr>)
    ensures
        instr == arithmetic(*ope, ty),
{
    let integer = ty.is_integer();
    let float = ty.is_float();
    match ope {
        BinaryOperator::Plus => if integer {
            Some(Instr::IntAdd)
        } else if float {
            Some(Instr::FloatAdd)
        } else {
            None
        },
        BinaryOperator::Minus => if integer {
            Some(Instr::IntSub)
        } else if float {
            Some(Instr::FloatSub)
        } else {
            None
        },
        BinaryOperator::Multiply => if integer {
            Some(Instr::IntMul)
        } else if float {
            Some(Instr::FloatMul)
        } else {
            None
        },
        BinaryOperator::Divide => if ty.is_signed_integer() {
            Some(Instr::SignedDiv)
        } else if ty.is_unsigned_integer() {
            Some(Instr::UnsignedDiv)
        } else if float {
            Some(Instr::FloatDiv)
        } else {
            None
        },
        BinaryOperator::Power => None,
    }
}

/// The instruction that pushes an integer literal.
pub fn integer_constant(value: &ValueInteger) -> (instr: Instr)
    ensures
        instr == integer_instr(*value),
{
    match value {
        ValueInteger::Int8(v) => Instr::ConstInt {
            ty: value.type_id(),
            bits: *v as u64,
            sign_extend: true,
        },
        ValueInteger::UInt8(v) => Instr::ConstInt {
            ty: value.type_id(),
            bits: *v as u64,
            sign_extend: false,
        },
        ValueInteger::Int16(v) => Instr::ConstInt {
            ty: value.type_id(),
            bits: *v as u64,
            sign_extend: true,
        },
        ValueInteger::UInt16(v) => Instr::ConstInt {
            ty: value.type_id(),
            bits: *v as u64,
            sign_extend: false,
        },
        ValueInteger::Int32(v) => Instr::ConstInt {
            ty: value.type_id(),
            bits: *v as u64,
            sign_extend: true,
        },
        ValueInteger::UInt32(v) => Instr::ConstInt {
            ty: value.type_id(),
            bits: *v as u64,
            sign_extend: false,
        },
        ValueInteger::Int64(v) => Instr::ConstInt {
            ty: value.type_id(),
            bits: *v as u64,
            sign_extend: true,
        },
        ValueInteger::UInt64(v) => Instr::ConstInt {
            ty: value.type_id(),
            bits: *v,
            sign_extend: false,
        },
        ValueInteger::Int128(v) => {
            let bits = *v as u128;
            Instr::ConstWide {
                ty: value.type_id(),
                low: bits as u64,
                high: (bits >> 64) as u64,
            }
        },
        ValueInteger::UInt128(v) => Instr::ConstWide {
            ty: value.type_id(),
            low: *v as u64,
            high: (*v >> 64) as u64,
        },
    }
}

/// The views of float constants.
pub open spec fn float_texts(floats: Seq<FloatConstant>) -> Seq<FloatText> {
    floats.map_values(|constant: FloatConstant| constant@)
}

/// The code generator of one expression.
pub struct Compiler<'ctx> {
    llvm_ctx: &'ctx inkwell::context::Context,
    expr: Box<Expr>,
    module: inkwell::module::Module<'ctx>,
    builder: inkwell::builder::Builder<'ctx>,
    type_interner: TypeInterner,
    output_file: String,
}

impl<'ctx> Compiler<'ctx> {
    /// The expression to compile.
    pub closed spec fn tree(&self) -> Tree {
        tree_of(*self.expr)
    }

    /// The registry of this compilation's types.
    pub closed spec fn registry(&self) -> TypeInterner {
        self.type_interner
    }

    /// The name that the module was created with.
    pub closed spec fn output_name(&self) -> Seq<char> {
        self.output_file@
    }

    /// The registry is well-formed.
    pub open spec fn wf(&self) -> bool {
        self.registry().wf()
    }

    /// A code generator for `expr` with an empty module called `output_file`,
    /// a builder, and a registry of the built-in types.
    #[must_use]
    pub fn new(expr: Box<Expr>, output_file: String, ctx: &'ctx inkwell::context::Context) -> (compiler:
        Compiler<'ctx>)
        ensures
            compiler.wf(),
            compiler.tree() == tree_of(*expr),
            compiler.output_name() == output_file@,
            compiler.registry().last_handle() == TypeId::BUILTIN_MAX,
    {
        let module = backend::new_module(ctx, output_file.as_str());
        Compiler {
            llvm_ctx: ctx,
            expr,
            module,
            builder: backend::new_builder(ctx),
            type_interner: TypeInterner::create(),
            output_file,
        }
    }

    /// The name that the module was created with.
    pub fn output_file(&self) -> (name: &String)
        ensures
            name@ == self.output_name(),
    {
        &self.output_file
    }

    fn name_of(&self, ty: TypeId) -> (name: String)
        ensures
            name@ == name_of_type(self.registry()@, ty),
    {
        match self.type_interner.get(ty) {
            Some(data_type) => data_type.name.clone(),
            None => String::new(),
        }
    }

    fn has_no_optimize(arg_context: &ArgContext) -> (found: bool)
        ensures
            found == wants_no_optimize(arg_context.option_args@),
    {
        let mut i: usize = 0;
        while i < arg_context.option_args.len()
            invariant
                i <= arg_context.option_args.len(),
                forall|j: int| 0 <= j < i ==> !(arg_context.option_args@[j] is NoOptimize),
            decreases arg_context.option_args.len() - i,
        {
            if let OptionArg::NoOptimize = &arg_context.option_args[i] {
                return true;
            }
            i += 1;
        }
        false
    }

    fn has_emit_llvm(arg_context: &ArgContext) -> (found: bool)
        ensures
            found == wants_text(arg_context.option_args@),
    {
        let mut i: usize = 0;
        while i < arg_context.option_args.len()
            invariant
                i <= arg_context.option_args.len(),
                forall|j: int| 0 <= j < i ==> !(arg_context.option_args@[j] is EmitLLVM),
            decreases arg_context.option_args.len() - i,
        {
            if let OptionArg::EmitLLVM = &arg_context.option_args[i] {
                return true;
            }
            i += 1;
        }
        false
    }

    /// The entry routine of the expression under the options of
    /// `arg_context`, or the first type error of the expression.
    pub fn plan(&self, arg_context: &ArgContext) -> (outcome: CompileResultList<Program>)
        requires
            self.wf(),
        ensures
            match routine(
                self.tree(),
                self.registry()@,
                wants_no_optimize(arg_context.option_args@),
                wants_text(arg_context.option_args@),
            ) {
                Ok(expected) => outcome matches Ok(program) && program@ == expected
                    && expected.well_typed(),
                Err(error) => outcome matches Err(errors) && errors@ == seq![error],
            },
    {
        let mut code: Vec<Instr> = Vec::new();
        let mut floats: Vec<FloatConstant> = Vec::new();
        assert(float_texts(floats@) =~= Seq::empty());
        let result = match self.compile_expression(&self.expr, &mut code, &mut floats) {
            Ok(result) => result,
            Err(errors) => {
                return Err(errors);
            },
        };
        let name = self.name_of(result);
        let program = Program {
            no_optimize: Self::has_no_optimize(arg_context),
            marker_symbol: "optnone".to_owned(),
            emit_text: Self::has_emit_llvm(arg_context),
            code,
            floats,
            result,
            print_symbol: join("print_", name.as_str()),
            by_pointer: result.is_wide(),
            slot_alignment: if result.is_wide() {
                SLOT_ALIGNMENT
            } else {
                0
            },
            entry_symbol: "main".to_owned(),
            newline_symbol: "println".to_owned(),
            status: STATUS_SUCCESS,
            status_bits: STATUS_BITS,
        };
        proof {
            let generated = generate(self.tree(), self.registry()@)->Ok_0;
            assert(program@.code =~= generated.instrs);
            assert(program@.floats =~= generated.floats);
            lemma_generate_is_typed(
                self.tree(),
                self.registry()@,
                Seq::empty(),
                Stack { types: Seq::empty(), floats_used: 0 },
            );
            assert(Seq::<FloatText>::empty() + generated.floats =~= generated.floats);
            assert(Seq::<TypeId>::empty().push(generated.ty) =~= seq![generated.ty]);
        }
        Ok(program)
    }

    /// Appends the code of `expr` to `code` and its float constants to
    /// `floats`, and returns the type of its value.
    fn compile_expression(
        &self,
        expr: &Expr,
        code: &mut Vec<Instr>,
        floats: &mut Vec<FloatConstant>,
    ) -> (outcome: CompileResultList<TypeId>)
        ensures
            match generate(tree_of(*expr), self.registry()@) {
                Ok(generated) => outcome == Ok::<TypeId, CompileErrorList>(generated.ty)
                    && final(code)@ == old(code)@ + generated.instrs && float_texts(
                    final(floats)@,
                ) == float_texts(old(floats)@) + generated.floats,
                Err(error) => outcome matches Err(errors) && errors@ == seq![error],
            },
        decreases expr,
    {
        match &expr.expr_type {
            ExprType::Literal(literal) => self.compile_expr_literal(literal, code, floats),
            ExprType::Unary(unary) => self.compile_expr_unary(expr, unary, code, floats),
            ExprType::Binary(binary) => self.compile_expr_binary(expr, binary, code, floats),
        }
    }

    fn compile_expr_literal(
        &self,
        literal: &ExprLiteral,
        code: &mut Vec<Instr>,
        floats: &mut Vec<FloatConstant>,
    ) -> (outcome: CompileResultList<TypeId>)
        ensures
            outcome == Ok::<TypeId, CompileErrorList>(literal.value@.type_id()),
            final(code)@ == old(code)@ + instruction::literal_code(literal.value@).instrs,
            float_texts(final(floats)@) == float_texts(old(floats)@) + instruction::literal_code(
                literal.value@,
            ).floats,
    {
        let ghost before = float_texts(floats@);
        match &literal.value {
            Value::Integer(integer) => {
                let instr = integer_constant(integer);
                let ty = integer.type_id();
                code.push(instr);
                assert(code@ =~= old(code)@ + seq![instr]);
                assert(float_texts(floats@) =~= before + Seq::<FloatText>::empty());
                Ok(ty)
            },
            Value::Float(float) => {
                let (ty, text) = match float {
                    ValueFloat::Float32(text) => (TypeId(TypeId::FLOAT32), text.clone()),
                    ValueFloat::Float64(text) => (TypeId(TypeId::FLOAT64), text.clone()),
                };
                let constant = FloatConstant { ty, text };
                code.push(Instr::ConstFloat { ty });
                floats.push(constant);
                assert(code@ =~= old(code)@ + seq![Instr::ConstFloat { ty }]);
                assert(float_texts(floats@) =~= before + seq![constant@]);
                Ok(ty)
            },
        }
    }

    fn compile_expr_unary(
        &self,
        expr: &Expr,
        unary: &ExprUnary,
        code: &mut Vec<Instr>,
        floats: &mut Vec<FloatConstant>,
    ) -> (outcome: CompileResultList<TypeId>)
        requires
            expr.expr_type == ExprType::Unary(*unary),
        ensures
            match generate(tree_of(*expr), self.registry()@) {
                Ok(generated) => outcome == Ok::<TypeId, CompileErrorList>(generated.ty)
                    && final(code)@ == old(code)@ + generated.instrs && float_texts(
                    final(floats)@,
                ) == float_texts(old(floats)@) + generated.floats,
                Err(error) => outcome matches Err(errors) && errors@ == seq![error],
            },
        decreases unary,
    {
        let rhs_ty = match self.compile_expression(&unary.rhs, code, floats) {
            Ok(ty) => ty,
            Err(errors) => {
                return Err(errors);
            },
        };
        match unary.ope {
            UnaryOperator::Plus => Ok(rhs_ty),
            UnaryOperator::Minus => match negation_for(rhs_ty) {
                Some(instr) => {
                    let ghost operand = generate(tree_of(*unary.rhs), self.registry()@)->Ok_0;
                    code.push(instr);
                    assert(code@ =~= old(code)@ + operand.instrs.push(instr));
                    Ok(rhs_ty)
                },
                None => {
                    let name = self.name_of(rhs_ty);
                    let mut msg = join("Cannot use a negative sign on type '", name.as_str());
                    msg.append("'.");
                    Err(CompileError::new(expr.pos, msg).into())
                },
            },
        }
    }

    fn compile_expr_binary(
        &self,
        expr: &Expr,
        binary: &ExprBinary,
        code: &mut Vec<Instr>,
        floats: &mut Vec<FloatConstant>,
    ) -> (outcome: CompileResultList<TypeId>)
        requires
            expr.expr_type == ExprType::Binary(*binary),
        ensures
            match generate(tree_of(*expr), self.registry()@) {
                Ok(generated) => outcome == Ok::<TypeId, CompileErrorList>(generated.ty)
                    && final(code)@ == old(code)@ + generated.instrs && float_texts(
                    final(floats)@,
                ) == float_texts(old(floats)@) + generated.floats,
                Err(error) => outcome matches Err(errors) && errors@ == seq![error],
            },
        decreases binary,
    {
        let lhs_ty = match self.compile_expression(&binary.lhs, code, floats) {
            Ok(ty) => ty,
            Err(errors) => {
                return Err(errors);
            },
        };
        let rhs_ty = match self.compile_expression(&binary.rhs, code, floats) {
            Ok(ty) => ty,
            Err(errors) => {
                return Err(errors);
            },
        };
        if lhs_ty != rhs_ty {
            let left = self.name_of(lhs_ty);
            let right = self.name_of(rhs_ty);
            let mut msg = join("Expected the same types, but found '", left.as_str());
            msg.append("' and '");
            msg.append(right.as_str());
            msg.append("'.");
            return Err(CompileError::new(expr.pos, msg).into());
        }
        match arithmetic_for(&binary.ope, lhs_ty) {
            Some(instr) => {
                let ghost left = generate(tree_of(*binary.lhs), self.registry()@)->Ok_0;
                let ghost right = generate(tree_of(*binary.rhs), self.registry()@)->Ok_0;
                code.push(instr);
                assert(code@ =~= old(code)@ + (left.instrs + right.instrs).push(instr));
                assert(float_texts(floats@) =~= float_texts(old(floats)@) + (left.floats
                    + right.floats));
                Ok(lhs_ty)
            },
            None => {
                let msg = match binary.ope {
                    BinaryOperator::Power => "Operator '**' is not implemented.".to_owned(),
                    _ => {
                        let symbol = binary.ope.to_string();
                        let name = self.name_of(lhs_ty);
                        let mut msg = join("Cannot use operator '", symbol.as_str());
                        msg.append("' on type '");
                        msg.append(name.as_str());
                        msg.append("'.");
                        msg
                    },
                };
                Err(CompileError::new(expr.pos, msg).into())
            },
        }
    }

    /// Compiles the expression to a module with one entry routine, `main`,
    /// and returns the module as text or bitcode, as the options say.
    ///
    /// A type error of the expression is returned before the backend is
    /// asked for anything. A well-typed expression gives an artifact, unless
    /// the backend refuses an instruction. `make_float` makes the
    /// floating-point constant of a literal; it is called once for every
    /// float literal, in the order of the literals.
    pub fn compile<F: Fn(&FloatConstant) -> inkwell::values::FloatValue<'ctx>>(
        &self,
        arg_context: &ArgContext,
        make_float: F,
    ) -> (outcome: CompileResultList<Artifact>)
        requires
            self.wf(),
            forall|constant: &FloatConstant| call_requires(make_float, (constant,)),
        ensures
            match generate(self.tree(), self.registry()@) {
                Ok(_) => match outcome {
                    Ok(artifact) => artifact.extension@ == artifact_extension(
                        wants_text(arg_context.option_args@),
                    ),
                    Err(errors) => errors@ == seq![backend_failure(self.tree().pos())],
                },
                Err(error) => outcome matches Err(errors) && errors@ == seq![error],
            },
    {
        let program = match self.plan(arg_context) {
            Ok(program) => program,
            Err(errors) => {
                return Err(errors);
            },
        };
        let emitted = self.emit(&program, &make_float);
        Self::artifact_of(program.emit_text, emitted, self.expr.pos)
    }

    /// What compilation returns once the backend was asked for the module
    /// of an expression at `pos`: the artifact with the bytes that the
    /// backend gave, under the extension that `emit_text` selects, or the
    /// error of a backend that refused.
    pub fn artifact_of(emit_text: bool, emitted: Option<Vec<u8>>, pos: Position) -> (outcome:
        CompileResultList<Artifact>)
        ensures
            match emitted {
                Some(bytes) => outcome matches Ok(artifact) && artifact.bytes == bytes
                    && artifact.extension@ == artifact_extension(emit_text),
                None => outcome matches Err(errors) && errors@ == seq![backend_failure(pos)],
            },
    {
        match emitted {
            Some(bytes) => {
                let extension = if emit_text {
                    "ll".to_owned()
                } else {
                    "bc".to_owned()
                };
                Ok(Artifact { extension, bytes })
            },
            None => Err(Self::refused(pos)),
        }
    }

    /// The error list for a backend that did not take an instruction of the
    /// expression at `pos`.
    pub fn refused(pos: Position) -> (errors: CompileErrorList)
        ensures
            errors@ == seq![backend_failure(pos)],
    {
        CompileError::new(pos, "The backend refused an instruction.".to_owned()).into()
    }

    /// Builds the entry routine of `program` in the module, under the names
    /// and with the status that the program holds, and returns the module's
    /// text or bitcode; `None` where the backend refused a request.
    fn emit<F: Fn(&FloatConstant) -> inkwell::values::FloatValue<'ctx>>(
        &self,
        program: &Program,
        make_float: &F,
    ) -> (artifact: Option<Vec<u8>>)
        requires
            program@.well_typed(),
            forall|constant: &FloatConstant| call_requires(*make_float, (constant,)),
    {
        let status_type = backend::int_type(self.llvm_ctx, program.status_bits);
        let main_fn = backend::add_function(
            &self.module,
            program.entry_symbol.as_str(),
            backend::int_function_type(status_type),
        );
        let entry_block = backend::append_block(self.llvm_ctx, main_fn, "entry");
        backend::position_at_end(&self.builder, entry_block);
        if program.no_optimize {
            let kind = backend::attribute_kind(program.marker_symbol.as_str());
            if kind == 0 {
                return None;
            }
            backend::add_function_attribute(
                main_fn,
                backend::enum_attribute(self.llvm_ctx, kind, 0),
            );
        }
        let value = self.emit_code(program, make_float)?;
        self.emit_print(program, value)?;
        let println_fn = backend::add_function(
            &self.module,
            program.newline_symbol.as_str(),
            backend::void_function_type(backend::void_type(self.llvm_ctx), Parameter::Nothing),
        );
        built(backend::build_call(&self.builder, println_fn, Argument::Nothing, "call"))?;
        let status = backend::const_int(status_type, program.status as u64, false);
        built(backend::build_return(&self.builder, status))?;
        if program.emit_text {
            Some(backend::module_text(&self.module))
        } else {
            Some(backend::module_bitcode(&self.module))
        }
    }

    /// Declares the print routine of `program` and calls it with `value`: as
    /// it is, or through a pointer to a stack slot of the program's alignment.
    fn emit_print(&self, program: &Program, value: BackendValue<'ctx>) -> (done: Option<()>)
        requires
            program.by_pointer ==> value is Int,
    {
        let void = backend::void_type(self.llvm_ctx);
        let (parameter, argument) = match value {
            BackendValue::Float(float) => (
                Parameter::Float(backend::float_value_type(float)),
                Argument::Float(float),
            ),
            BackendValue::Int(integer) => {
                let ty = backend::int_type(self.llvm_ctx, Self::width_of(program.result));
                if program.by_pointer {
                    let slot = built(backend::build_alloca(&self.builder, ty, "alloca"))?;
                    if !backend::set_alignment(
                        backend::as_instruction(slot)?,
                        program.slot_alignment,
                    ) {
                        return None;
                    }
                    built(backend::build_store(&self.builder, slot, integer))?;
                    (Parameter::Pointer(backend::pointer_value_type(slot)), Argument::Pointer(slot))
                } else {
                    (Parameter::Int(ty), Argument::Int(integer))
                }
            },
        };
        let print_fn = backend::add_function(
            &self.module,
            program.print_symbol.as_str(),
            backend::void_function_type(void, parameter),
        );
        built(backend::build_call(&self.builder, print_fn, argument, "call"))
    }

    /// The width of the backend's integer type for `ty`: the type's own
    /// width, and 32 for a handle that is no built-in numeric type.
    fn width_of(ty: TypeId) -> (bits: u32)
        ensures
            1 <= bits <= 128,
            ty.is_numeric() ==> bits == ty.bit_width(),
    {
        let bits = ty.bit_width();
        if bits == 0 {
            32
        } else {
            bits
        }
    }

    /// Hands the instructions of `program` to the backend and returns the
    /// value that they leave, an integer or a float as the result's type
    /// says; `None` where the backend refused one. Only the builder can
    /// refuse, so a program of constants alone always has its value.
    fn emit_code<F: Fn(&FloatConstant) -> inkwell::values::FloatValue<'ctx>>(
        &self,
        program: &Program,
        make_float: &F,
    ) -> (value: Option<BackendValue<'ctx>>)
        requires
            program@.well_typed(),
            forall|constant: &FloatConstant| call_requires(*make_float, (constant,)),
        ensures
            (forall|i: int| 0 <= i < program.code@.len() ==> program.code@[i].is_constant())
                ==> value is Some,
            value matches Some(computed) ==> {
                &&& program.result.is_integer() ==> computed is Int
                &&& program.result.is_float() ==> computed is Float
            },
    {
        let ghost floats = program@.floats;
        let ghost empty = Stack { types: Seq::empty(), floats_used: 0 };
        let mut stack: Vec<Slot<'ctx>> = Vec::new();
        let mut used: usize = 0;
        let mut i: usize = 0;
        assert(stack_types(stack@) =~= Seq::empty());
        assert(program.code@.take(0) =~= Seq::empty());
        while i < program.code.len()
            invariant
                i <= program.code.len(),
                floats == program@.floats,
                empty == (Stack { types: Seq::empty(), floats_used: 0 }),
                program@.well_typed(),
                forall|constant: &FloatConstant| call_requires(*make_float, (constant,)),
                forall|j: int| 0 <= j < stack@.len() ==> slot_ok(#[trigger] stack@[j]),
                run(program.code@.take(i as int), floats, empty) == Some(
                    Stack { types: stack_types(stack@), floats_used: used as nat },
                ),
            decreases program.code.len() - i,
        {
            proof {
                lemma_run_prefix(program.code@, floats, empty, i as int);
                lemma_run_prefix(program.code@, floats, empty, i + 1);
                assert(floats.len() == program.floats@.len());
            }
            assert(step(
                program.code[i as int],
                floats,
                Stack { types: stack_types(stack@), floats_used: used as nat },
            ) is Some);
            let slot = match self.emit_instr(program, program.code[i], &mut stack, used, make_float) {
                Some(slot) => slot,
                None => {
                    return None;
                },
            };
            let ghost taken = stack@;
            if let Instr::ConstFloat { .. } = program.code[i] {
                assert(used < floats.len() == program.floats.len());
                used += 1;
            }
            stack.push(slot);
            assert(stack_types(stack@) =~= stack_types(taken).push(slot.ty));
            assert(run(program.code@.take(i + 1), floats, empty) == Some(
                Stack { types: stack_types(stack@), floats_used: used as nat },
            ));
            i += 1;
        }
        assert(program.code@.take(i as int) =~= program.code@);
        assert(stack_types(stack@).len() == 1);
        assert(stack_types(stack@)[0] == program.result);
        match stack.pop() {
            Some(slot) => Some(slot.value),
            None => None,
        }
    }

    /// Hands one instruction to the backend: takes its operands from the
    /// stack, whatever the backend answers, and returns the slot to push,
    /// which has the type of the constant or of the operands; `None` where
    /// the builder refused. A constant is never refused.
    fn emit_instr<F: Fn(&FloatConstant) -> inkwell::values::FloatValue<'ctx>>(
        &self,
        program: &Program,
        instr: Instr,
        stack: &mut Vec<Slot<'ctx>>,
        used: usize,
        make_float: &F,
    ) -> (slot: Option<Slot<'ctx>>)
        requires
            forall|j: int| 0 <= j < old(stack)@.len() ==> slot_ok(#[trigger] old(stack)@[j]),
            step(
                instr,
                program@.floats,
                Stack { types: stack_types(old(stack)@), floats_used: used as nat },
            ) is Some,
            forall|constant: &FloatConstant| call_requires(*make_float, (constant,)),
        ensures
            final(stack)@ == old(stack)@.take(old(stack)@.len() - instr.operands()),
            instr.is_constant() ==> slot is Some,
            slot matches Some(pushed) ==> {
                &&& pushed.ty == instr.pushes(stack_types(old(stack)@))
                &&& slot_ok(pushed)
                &&& step(
                    instr,
                    program@.floats,
                    Stack { types: stack_types(old(stack)@), floats_used: used as nat },
                ) == Some(
                    Stack {
                        types: stack_types(final(stack)@).push(pushed.ty),
                        floats_used: if instr is ConstFloat {
                            (used + 1) as nat
                        } else {
                            used as nat
                        },
                    },
                )
            },
    {
        let ghost before = stack@;
        match instr {
            Instr::ConstInt { ty, bits, sign_extend } => {
                let int_type = backend::int_type(self.llvm_ctx, Self::width_of(ty));
                let value = backend::const_int(int_type, bits, sign_extend);
                Some(Slot { ty, value: BackendValue::Int(value) })
            },
            Instr::ConstWide { ty, low, high } => {
                let int_type = backend::int_type(self.llvm_ctx, Self::width_of(ty));
                let value = backend::const_wide(int_type, low, high);
                Some(Slot { ty, value: BackendValue::Int(value) })
            },
            Instr::ConstFloat { ty } => {
                let value = make_float(&program.floats[used]);
                Some(Slot { ty, value: BackendValue::Float(value) })
            },
            Instr::IntNeg => {
                let (ty, operand) = pop_int(stack);
                assert(stack_types(stack@).push(ty) =~= stack_types(before));
                int_slot(ty, backend::build_int_neg(&self.builder, operand, "neg"))
            },
            Instr::FloatNeg => {
                let (ty, operand) = pop_float(stack);
                assert(stack_types(stack@).push(ty) =~= stack_types(before));
                float_slot(ty, backend::build_float_neg(&self.builder, operand, "neg"))
            },
            Instr::IntAdd | Instr::IntSub | Instr::IntMul | Instr::SignedDiv
            | Instr::UnsignedDiv => {
                let (ty, rhs) = pop_int(stack);
                let (_, lhs) = pop_int(stack);
                assert(stack_types(stack@).push(ty) =~= stack_types(before).drop_last());
                let outcome = match instr {
                    Instr::IntAdd => backend::build_int_add(&self.builder, lhs, rhs, "add"),
                    Instr::IntSub => backend::build_int_sub(&self.builder, lhs, rhs, "sub"),
                    Instr::IntMul => backend::build_int_mul(&self.builder, lhs, rhs, "mul"),
                    Instr::SignedDiv => backend::build_int_signed_div(
                        &self.builder,
                        lhs,
                        rhs,
                        "sdiv",
                    ),
                    _ => backend::build_int_unsigned_div(&self.builder, lhs, rhs, "udiv"),
                };
                int_slot(ty, outcome)
            },
            Instr::FloatAdd | Instr::FloatSub | Instr::FloatMul | Instr::FloatDiv => {
                let (ty, rhs) = pop_float(stack);
                let (_, lhs) = pop_float(stack);
                assert(stack_types(stack@).push(ty) =~= stack_types(before).drop_last());
                let outcome = match instr {
                    Instr::FloatAdd => backend::build_float_add(&self.builder, lhs, rhs, "add"),
                    Instr::FloatSub => backend::build_float_sub(&self.builder, lhs, rhs, "sub"),
                    Instr::FloatMul => backend::build_float_mul(&self.builder, lhs, rhs, "mul"),
                    _ => backend::build_float_div(&self.builder, lhs, rhs, "div"),
                };
                float_slot(ty, outcome)
            },
        }
    }
}

/// What a request to the builder gave: what was built, or nothing where the
/// builder refused.
pub fn built<T>(outcome: Result<T, inkwell::builder::BuilderError>) -> (made: Option<T>)
    ensures
        match outcome {
            Ok(value) => made == Some(value),
            Err(_) => made is None,
        },
{
    match outcome {
        Ok(value) => Some(value),
        Err(_) => None,
    }
}

/// The slot of type `ty` for an integer that the builder was asked for, or
/// nothing where the builder refused.
pub fn int_slot<'ctx>(
    ty: TypeId,
    outcome: Result<inkwell::values::IntValue<'ctx>, inkwell::builder::BuilderError>,
) -> (slot: Option<Slot<'ctx>>)
    ensures
        match outcome {
            Ok(value) => slot == Some(Slot { ty, value: BackendValue::Int(value) }),
            Err(_) => slot is None,
        },
{
    match outcome {
        Ok(value) => Some(Slot { ty, value: BackendValue::Int(value) }),
        Err(_) => None,
    }
}

/// The slot of type `ty` for a float that the builder was asked for, or
/// nothing where the builder refused.
pub fn float_slot<'ctx>(
    ty: TypeId,
    outcome: Result<inkwell::values::FloatValue<'ctx>, inkwell::builder::BuilderError>,
) -> (slot: Option<Slot<'ctx>>)
    ensures
        match outcome {
            Ok(value) => slot == Some(Slot { ty, value: BackendValue::Float(value) }),
            Err(_) => slot is None,
        },
{
    match outcome {
        Ok(value) => Some(Slot { ty, value: BackendValue::Float(value) }),
        Err(_) => None,
    }
}

/// Takes the integer on top of the stack.
fn pop_int<'ctx>(stack: &mut Vec<Slot<'ctx>>) -> (top: (TypeId, inkwell::values::IntValue<'ctx>))
    requires
        old(stack)@.len() >= 1,
        old(stack)@.last().ty.is_integer(),
        slot_ok(old(stack)@.last()),
    ensures
        final(stack)@ == old(stack)@.drop_last(),
        top.0 == old(stack)@.last().ty,
{
    match stack.pop() {
        Some(Slot { ty, value: BackendValue::Int(value) }) => (ty, value),
        _ => unreached(),
    }
}

/// Takes the float on top of the stack.
fn pop_float<'ctx>(stack: &mut Vec<Slot<'ctx>>) -> (top: (TypeId, inkwell::values::FloatValue<'ctx>))
    requires
        old(stack)@.len() >= 1,
        old(stack)@.last().ty.is_float(),
        slot_ok(old(stack)@.last()),
    ensures
        final(stack)@ == old(stack)@.drop_last(),
        top.0 == old(stack)@.last().ty,
{
    match stack.pop() {
        Some(Slot { ty, value: BackendValue::Float(value) }) => (ty, value),
        _ => unreached(),
    }
}

} // verus!

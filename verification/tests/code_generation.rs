use inkwell::context::Context;
use iranta::args::{ArgContext, OptionArg};
use iranta::ast::binary_ope::BinaryOperator;
use iranta::ast::expr::{Expr, ExprBinary, ExprLiteral, ExprType, ExprUnary};
use iranta::ast::unary_ope::UnaryOperator;
use iranta::compiler::instruction::{FloatConstant, Instr};
use inkwell::builder::BuilderError;
use iranta::compiler::{
    arithmetic_for, built, float_slot, int_slot, integer_constant, negation_for, Artifact,
    BackendValue, Compiler, Program,
};
use iranta::compiler_data::data_type::TypeId;
use iranta::compiler_data::position::Position;
use iranta::compiler_data::value::{Value, ValueFloat, ValueInteger};
use iranta::parser::Parser;

fn plan_with(source: &str, options: Vec<OptionArg>) -> Result<Program, Vec<(Position, String)>> {
    let text = source.to_string();
    let args = ArgContext { option_args: options, file_name: None };
    let mut parser = Parser::new(&text, &args);
    let expr = parser.parse().unwrap();
    let ctx = Context::create();
    let compiler = Compiler::new(expr, "expression".to_string(), &ctx);
    compiler
        .plan(&args)
        .map_err(|errors| errors.list.into_iter().map(|error| (error.pos, error.msg)).collect())
}

fn plan(source: &str) -> Program {
    plan_with(source, vec![]).unwrap()
}

fn int32(value: u64) -> Instr {
    Instr::ConstInt { ty: TypeId(TypeId::INT32), bits: value, sign_extend: true }
}

fn ty(raw: u32) -> TypeId {
    TypeId(raw)
}

#[test]
fn operands_come_before_their_operator() {
    let program = plan("1+2*3");
    assert_eq!(program.code, vec![int32(1), int32(2), int32(3), Instr::IntMul, Instr::IntAdd]);
    assert_eq!(program.result, ty(TypeId::INT32));
    assert_eq!(program.print_symbol, "print_int32");
    assert!(!program.by_pointer);
    assert!(program.floats.is_empty());
    let program = plan("(1-2)*3");
    assert_eq!(program.code, vec![int32(1), int32(2), Instr::IntSub, int32(3), Instr::IntMul]);
}

#[test]
fn the_plan_holds_the_whole_entry_routine() {
    let program = plan("1+2");
    assert_eq!(program.entry_symbol, "main");
    assert_eq!(program.print_symbol, "print_int32");
    assert_eq!(program.newline_symbol, "println");
    assert_eq!(program.status, 0);
    assert_eq!(program.status_bits, 32);
    assert_eq!(program.marker_symbol, "optnone");
    assert!(!program.by_pointer);
    assert_eq!(program.slot_alignment, 0);
    let program = plan("1uint128");
    assert!(program.by_pointer);
    assert_eq!(program.slot_alignment, 16);
    let program = plan("1int128");
    assert!(program.by_pointer);
    assert_eq!(program.slot_alignment, 16);
    let program = plan("1int64");
    assert_eq!(program.slot_alignment, 0);
}

#[test]
fn options_are_carried_into_the_plan() {
    let program = plan("1");
    assert!(!program.no_optimize);
    assert!(!program.emit_text);
    let program = plan_with("1", vec![OptionArg::NoOptimize, OptionArg::EmitLLVM]).unwrap();
    assert!(program.no_optimize);
    assert!(program.emit_text);
}

#[test]
fn float_constants_are_listed_in_their_order() {
    let program = plan("1.5float32*2.0float32-.25float32");
    assert_eq!(
        program.code,
        vec![
            Instr::ConstFloat { ty: ty(TypeId::FLOAT32) },
            Instr::ConstFloat { ty: ty(TypeId::FLOAT32) },
            Instr::FloatMul,
            Instr::ConstFloat { ty: ty(TypeId::FLOAT32) },
            Instr::FloatSub,
        ]
    );
    assert_eq!(
        program.floats,
        vec![
            FloatConstant { ty: ty(TypeId::FLOAT32), text: "1.5".to_string() },
            FloatConstant { ty: ty(TypeId::FLOAT32), text: "2.0".to_string() },
            FloatConstant { ty: ty(TypeId::FLOAT32), text: "0.25".to_string() },
        ]
    );
    assert_eq!(program.print_symbol, "print_float32");
}

#[test]
fn literals_keep_their_exact_type() {
    let cases: Vec<(&str, u32)> = vec![
        ("1int8", TypeId::INT8),
        ("1uint8", TypeId::UINT8),
        ("1int16", TypeId::INT16),
        ("1uint16", TypeId::UINT16),
        ("1int32", TypeId::INT32),
        ("1uint32", TypeId::UINT32),
        ("1int64", TypeId::INT64),
        ("1uint64", TypeId::UINT64),
        ("1int128", TypeId::INT128),
        ("1uint128", TypeId::UINT128),
        ("1float32", TypeId::FLOAT32),
        ("1float64", TypeId::FLOAT64),
    ];
    let names = [
        "void", "int8", "uint8", "int16", "uint16", "int32", "uint32", "int64", "uint64",
        "int128", "uint128", "float32", "float64",
    ];
    for (source, raw) in cases {
        let program = plan(source);
        assert_eq!(program.result, ty(raw), "{}", source);
        assert_eq!(program.print_symbol, format!("print_{}", names[raw as usize]));
        assert_eq!(program.by_pointer, raw == TypeId::INT128 || raw == TypeId::UINT128);
    }
}

#[test]
fn unary_plus_is_its_operand_and_unary_minus_negates() {
    assert_eq!(plan("+5").code, vec![int32(5)]);
    assert_eq!(plan("-5").code, vec![int32(5), Instr::IntNeg]);
    assert_eq!(
        plan("-5uint8").code,
        vec![Instr::ConstInt { ty: ty(TypeId::UINT8), bits: 5, sign_extend: false }, Instr::IntNeg]
    );
    assert_eq!(
        plan("-5.0").code,
        vec![Instr::ConstFloat { ty: ty(TypeId::FLOAT64) }, Instr::FloatNeg]
    );
}

#[test]
fn mismatch_is_reported_at_the_binary_node() {
    let errors = plan_with("1int8+1int16 ", vec![]).unwrap_err();
    assert_eq!(
        errors,
        vec![(
            Position { start_line: 1, end_line: 1, start_col: 1, end_col: 12 },
            "Expected the same types, but found 'int8' and 'int16'.".to_string()
        )]
    );
    let errors = plan_with("1+1.0 ", vec![]).unwrap_err();
    assert_eq!(errors[0].1, "Expected the same types, but found 'int32' and 'float64'.");
    let errors = plan_with("1uint64*1int64 ", vec![]).unwrap_err();
    assert_eq!(errors[0].1, "Expected the same types, but found 'uint64' and 'int64'.");
}

#[test]
fn the_first_error_in_post_order_is_reported() {
    let errors = plan_with("(1int8+1int16)+(2**3) ", vec![]).unwrap_err();
    assert_eq!(errors.len(), 1);
    assert_eq!(errors[0].1, "Expected the same types, but found 'int8' and 'int16'.");
    let errors = plan_with("(2**3)+(1int8+1int16) ", vec![]).unwrap_err();
    assert_eq!(errors[0].1, "Operator '**' is not implemented.");
    let errors = plan_with("1int8 ** 2int16 ", vec![]).unwrap_err();
    assert_eq!(errors[0].1, "Expected the same types, but found 'int8' and 'int16'.");
}

#[test]
fn dispatch_by_operator_and_type() {
    let signed = ty(TypeId::INT16);
    let unsigned = ty(TypeId::UINT128);
    let float = ty(TypeId::FLOAT32);
    let void = ty(TypeId::VOID);
    assert_eq!(arithmetic_for(&BinaryOperator::Plus, signed), Some(Instr::IntAdd));
    assert_eq!(arithmetic_for(&BinaryOperator::Plus, unsigned), Some(Instr::IntAdd));
    assert_eq!(arithmetic_for(&BinaryOperator::Plus, float), Some(Instr::FloatAdd));
    assert_eq!(arithmetic_for(&BinaryOperator::Minus, signed), Some(Instr::IntSub));
    assert_eq!(arithmetic_for(&BinaryOperator::Minus, float), Some(Instr::FloatSub));
    assert_eq!(arithmetic_for(&BinaryOperator::Multiply, unsigned), Some(Instr::IntMul));
    assert_eq!(arithmetic_for(&BinaryOperator::Multiply, float), Some(Instr::FloatMul));
    assert_eq!(arithmetic_for(&BinaryOperator::Divide, signed), Some(Instr::SignedDiv));
    assert_eq!(arithmetic_for(&BinaryOperator::Divide, unsigned), Some(Instr::UnsignedDiv));
    assert_eq!(arithmetic_for(&BinaryOperator::Divide, float), Some(Instr::FloatDiv));
    assert_eq!(arithmetic_for(&BinaryOperator::Power, signed), None);
    assert_eq!(arithmetic_for(&BinaryOperator::Power, float), None);
    assert_eq!(arithmetic_for(&BinaryOperator::Plus, void), None);
    assert_eq!(arithmetic_for(&BinaryOperator::Divide, ty(99)), None);
    assert_eq!(negation_for(signed), Some(Instr::IntNeg));
    assert_eq!(negation_for(unsigned), Some(Instr::IntNeg));
    assert_eq!(negation_for(float), Some(Instr::FloatNeg));
    assert_eq!(negation_for(void), None);
}

#[test]
fn narrow_constants_are_sign_extended_bit_patterns() {
    assert_eq!(
        integer_constant(&ValueInteger::Int8(-1)),
        Instr::ConstInt { ty: ty(TypeId::INT8), bits: u64::MAX, sign_extend: true }
    );
    assert_eq!(
        integer_constant(&ValueInteger::Int32(i32::MIN)),
        Instr::ConstInt { ty: ty(TypeId::INT32), bits: 0xffff_ffff_8000_0000, sign_extend: true }
    );
    assert_eq!(
        integer_constant(&ValueInteger::Int64(-2)),
        Instr::ConstInt { ty: ty(TypeId::INT64), bits: u64::MAX - 1, sign_extend: true }
    );
    assert_eq!(
        integer_constant(&ValueInteger::UInt64(u64::MAX)),
        Instr::ConstInt { ty: ty(TypeId::UINT64), bits: u64::MAX, sign_extend: false }
    );
    assert_eq!(
        integer_constant(&ValueInteger::UInt16(65535)),
        Instr::ConstInt { ty: ty(TypeId::UINT16), bits: 65535, sign_extend: false }
    );
}

fn rejoin(instr: Instr) -> u128 {
    match instr {
        Instr::ConstWide { low, high, .. } => ((high as u128) << 64) | (low as u128),
        other => panic!("{:?}", other),
    }
}

#[test]
fn wide_constants_split_into_halves_without_loss() {
    assert_eq!(
        integer_constant(&ValueInteger::UInt128(u128::MAX)),
        Instr::ConstWide { ty: ty(TypeId::UINT128), low: u64::MAX, high: u64::MAX }
    );
    assert_eq!(
        integer_constant(&ValueInteger::Int128(i128::MAX)),
        Instr::ConstWide { ty: ty(TypeId::INT128), low: u64::MAX, high: u64::MAX >> 1 }
    );
    assert_eq!(
        integer_constant(&ValueInteger::Int128(i128::MIN)),
        Instr::ConstWide { ty: ty(TypeId::INT128), low: 0, high: 1 << 63 }
    );
    assert_eq!(
        integer_constant(&ValueInteger::Int128(-1)),
        Instr::ConstWide { ty: ty(TypeId::INT128), low: u64::MAX, high: u64::MAX }
    );
    assert_eq!(
        integer_constant(&ValueInteger::UInt128(0x0123_4567_89ab_cdef_fedc_ba98_7654_3210)),
        Instr::ConstWide {
            ty: ty(TypeId::UINT128),
            low: 0xfedc_ba98_7654_3210,
            high: 0x0123_4567_89ab_cdef,
        }
    );
    for value in [0u128, 1, u64::MAX as u128, (u64::MAX as u128) + 1, u128::MAX, 1 << 127] {
        assert_eq!(rejoin(integer_constant(&ValueInteger::UInt128(value))), value);
        let signed = value as i128;
        assert_eq!(rejoin(integer_constant(&ValueInteger::Int128(signed))) as i128, signed);
    }
}

#[test]
fn hand_built_tree_compiles_like_a_parsed_one() {
    let pos = Position { start_line: 1, end_line: 1, start_col: 1, end_col: 1 };
    let leaf = |value: Value| Box::new(Expr { pos, expr_type: ExprType::Literal(ExprLiteral { value }) });
    let tree = Box::new(Expr {
        pos,
        expr_type: ExprType::Binary(ExprBinary {
            ope: BinaryOperator::Divide,
            lhs: Box::new(Expr {
                pos,
                expr_type: ExprType::Unary(ExprUnary {
                    ope: UnaryOperator::Minus,
                    rhs: leaf(Value::Float(ValueFloat::Float64("9.0".to_string()))),
                }),
            }),
            rhs: leaf(Value::Float(ValueFloat::Float64("3.0".to_string()))),
        }),
    });
    let ctx = Context::create();
    let compiler = Compiler::new(tree, "expression".to_string(), &ctx);
    assert_eq!(compiler.output_file(), "expression");
    let args = ArgContext { option_args: vec![], file_name: None };
    let program = compiler.plan(&args).unwrap();
    assert_eq!(
        program.code,
        vec![
            Instr::ConstFloat { ty: ty(TypeId::FLOAT64) },
            Instr::FloatNeg,
            Instr::ConstFloat { ty: ty(TypeId::FLOAT64) },
            Instr::FloatDiv,
        ]
    );
}

#[test]
fn backend_refusal_is_one_compile_error() {
    let errors = Compiler::refused(Position { start_line: 1, end_line: 1, start_col: 2, end_col: 3 });
    assert_eq!(errors.list.len(), 1);
    assert_eq!(errors.list[0].msg, "The backend refused an instruction.");
    assert_eq!(errors.list[0].pos.start_col, 2);
}

#[test]
fn artifact_takes_the_bytes_of_the_backend() {
    let pos = Position { start_line: 1, end_line: 1, start_col: 1, end_col: 3 };
    assert_eq!(
        Compiler::artifact_of(true, Some(vec![1, 2, 3]), pos),
        Ok(Artifact { extension: "ll".to_string(), bytes: vec![1, 2, 3] })
    );
    assert_eq!(
        Compiler::artifact_of(false, Some(vec![]), pos),
        Ok(Artifact { extension: "bc".to_string(), bytes: vec![] })
    );
    assert_eq!(Compiler::artifact_of(true, None, pos), Err(Compiler::refused(pos)));
}

#[test]
fn a_refusal_of_the_builder_gives_nothing() {
    assert_eq!(built::<u8>(Ok(3)), Some(3));
    assert_eq!(built::<u8>(Err(BuilderError::UnsetPosition)), None);
    let ctx = Context::create();
    let seven = ctx.i16_type().const_int(7, false);
    let slot = int_slot(ty(TypeId::INT16), Ok(seven)).unwrap();
    assert_eq!(slot.ty, ty(TypeId::INT16));
    match slot.value {
        BackendValue::Int(value) => assert_eq!(value, seven),
        BackendValue::Float(_) => panic!("a float"),
    }
    assert!(int_slot(ty(TypeId::INT16), Err(BuilderError::UnsetPosition)).is_none());
    let half = ctx.f64_type().const_float(0.5);
    let slot = float_slot(ty(TypeId::FLOAT64), Ok(half)).unwrap();
    assert_eq!(slot.ty, ty(TypeId::FLOAT64));
    match slot.value {
        BackendValue::Float(value) => assert_eq!(value, half),
        BackendValue::Int(_) => panic!("an integer"),
    }
    assert!(float_slot(ty(TypeId::FLOAT64), Err(BuilderError::UnsetPosition)).is_none());
}

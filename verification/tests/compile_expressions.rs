use inkwell::context::Context;
use inkwell::values::FloatValue;
use iranta::args::{ArgContext, OptionArg};
use iranta::compiler::instruction::{FloatConstant, Instr};
use iranta::compiler::Compiler;
use iranta::compiler_data::data_type::TypeId;
use iranta::parser::Parser;

fn make_float<'ctx>(ctx: &'ctx Context, constant: &FloatConstant) -> FloatValue<'ctx> {
    if constant.ty == TypeId(TypeId::FLOAT32) {
        ctx.f32_type().const_float(constant.text.parse::<f32>().unwrap() as f64)
    } else {
        ctx.f64_type().const_float(constant.text.parse::<f64>().unwrap())
    }
}

fn compile_with(source: &str, options: Vec<OptionArg>) -> Result<Vec<u8>, Vec<String>> {
    let text = source.to_string();
    let args = ArgContext { option_args: options, file_name: None };
    let mut parser = Parser::new(&text, &args);
    let expr = parser.parse().unwrap();
    let ctx = Context::create();
    let compiler = Compiler::new(expr, "expression".to_string(), &ctx);
    match compiler.compile(&args, |constant: &FloatConstant| make_float(&ctx, constant)) {
        Ok(artifact) => Ok(artifact.bytes),
        Err(errors) => Err(errors.list.into_iter().map(|error| error.msg).collect()),
    }
}

fn compile_to_text(source: &str) -> String {
    String::from_utf8(compile_with(source, vec![OptionArg::EmitLLVM]).unwrap()).unwrap()
}

fn plan(source: &str) -> Vec<Instr> {
    let text = source.to_string();
    let args = ArgContext { option_args: vec![], file_name: None };
    let mut parser = Parser::new(&text, &args);
    let expr = parser.parse().unwrap();
    let ctx = Context::create();
    let compiler = Compiler::new(expr, "expression".to_string(), &ctx);
    compiler.plan(&args).unwrap().code
}

#[test]
fn sum_of_one_and_two_prints_three() {
    let ir = compile_to_text("1+2");
    assert!(ir.contains("define i32 @main()"), "{}", ir);
    assert!(ir.contains("call void @print_int32(i32 3)"), "{}", ir);
    assert!(ir.contains("call void @println()"), "{}", ir);
    assert!(ir.contains("ret i32 0"), "{}", ir);
}

#[test]
fn int32_division_truncates() {
    let ir = compile_to_text("5/2");
    assert!(ir.contains("call void @print_int32(i32 2)"), "{}", ir);
    assert_eq!(
        plan("5/2"),
        vec![
            Instr::ConstInt { ty: TypeId(TypeId::INT32), bits: 5, sign_extend: true },
            Instr::ConstInt { ty: TypeId(TypeId::INT32), bits: 2, sign_extend: true },
            Instr::SignedDiv,
        ]
    );
}

#[test]
fn float_division_keeps_the_fraction() {
    let ir = compile_to_text("5.0/2.0");
    assert!(ir.contains("call void @print_float64(double 2.500000e+00)"), "{}", ir);
}

#[test]
fn unsigned_division_is_unsigned() {
    assert_eq!(
        plan("200uint8/3uint8"),
        vec![
            Instr::ConstInt { ty: TypeId(TypeId::UINT8), bits: 200, sign_extend: false },
            Instr::ConstInt { ty: TypeId(TypeId::UINT8), bits: 3, sign_extend: false },
            Instr::UnsignedDiv,
        ]
    );
    let ir = compile_to_text("200uint8/3uint8");
    assert!(ir.contains("call void @print_uint8(i8 66)"), "{}", ir);
}

#[test]
fn mismatched_types_are_named_in_the_error() {
    let errors = compile_with("1int8+1int16", vec![]).unwrap_err();
    assert_eq!(errors, vec!["Expected the same types, but found 'int8' and 'int16'.".to_string()]);
}

#[test]
fn power_is_not_implemented() {
    let errors = compile_with("2**3", vec![]).unwrap_err();
    assert_eq!(errors, vec!["Operator '**' is not implemented.".to_string()]);
}

#[test]
fn unary_minus_negates() {
    let ir = compile_to_text("-5");
    assert!(ir.contains("call void @print_int32(i32 -5)"), "{}", ir);
    let ir = compile_to_text("-2.5float32");
    assert!(ir.contains("call void @print_float32(float -2.500000e+00)"), "{}", ir);
}

#[test]
fn literals_of_64_bits_keep_their_type() {
    let ir = compile_to_text("1int64+2int64");
    assert!(ir.contains("call void @print_int64(i64 3)"), "{}", ir);
    let ir = compile_to_text("18446744073709551615uint64");
    assert!(ir.contains("call void @print_uint64(i64 -1)"), "{}", ir);
}

#[test]
fn wide_result_is_passed_by_pointer() {
    let ir = compile_to_text("340282366920938463463374607431768211455uint128");
    assert!(ir.contains("alloca i128, align 16"), "{}", ir);
    assert!(ir.contains("store i128 -1, i128*"), "{}", ir);
    assert!(ir.contains("call void @print_uint128(i128*"), "{}", ir);
    let ir = compile_to_text("170141183460469231731687303715884105727int128");
    assert!(ir.contains("store i128 170141183460469231731687303715884105727, i128*"), "{}", ir);
}

#[test]
fn no_optimize_marks_the_entry_routine() {
    let bytes = compile_with("1", vec![OptionArg::EmitLLVM, OptionArg::NoOptimize]).unwrap();
    let ir = String::from_utf8(bytes).unwrap();
    assert!(ir.contains("optnone"), "{}", ir);
    assert!(!compile_to_text("1").contains("optnone"));
}

#[test]
fn bitcode_is_the_default_artifact() {
    let bytes = compile_with("1+2", vec![]).unwrap();
    assert_eq!(&bytes[..4], b"BC\xC0\xDE");
}

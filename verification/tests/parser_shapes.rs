use iranta::args::ArgContext;
use iranta::ast::binary_ope::BinaryOperator;
use iranta::ast::expr::{Expr, ExprType};
use iranta::compiler_data::value::{Value, ValueInteger};
use iranta::parser::Parser;

fn no_options() -> ArgContext {
    ArgContext { option_args: vec![], file_name: None }
}

fn parse(source: &str) -> Box<Expr> {
    let text = source.to_string();
    let args = no_options();
    let mut parser = Parser::new(&text, &args);
    parser.parse().unwrap()
}

fn shape(expr: &Expr) -> String {
    match &expr.expr_type {
        ExprType::Literal(literal) => match &literal.value {
            Value::Integer(ValueInteger::Int32(value)) => format!("{}", value),
            other => format!("{:?}", other),
        },
        ExprType::Unary(unary) => format!("({}{})", unary.ope.to_string(), shape(&unary.rhs)),
        ExprType::Binary(binary) => format!(
            "({}{}{})",
            shape(&binary.lhs),
            binary.ope.to_string(),
            shape(&binary.rhs)
        ),
    }
}

#[test]
fn minus_associates_to_the_left() {
    assert_eq!(shape(&parse("2-3-4")), "((2-3)-4)");
}

#[test]
fn multiply_binds_tighter_than_plus() {
    assert_eq!(shape(&parse("2+3*4")), "(2+(3*4))");
}

#[test]
fn power_associates_to_the_right() {
    let expr = parse("2**3**2");
    assert_eq!(shape(&expr), "(2**(3**2))");
    match &expr.expr_type {
        ExprType::Binary(binary) => assert_eq!(binary.ope, BinaryOperator::Power),
        other => panic!("{:?}", other),
    }
}

#[test]
fn unclosed_parenthesis_is_reported_at_the_end_of_input() {
    let text = "(1+2".to_string();
    let args = no_options();
    let mut parser = Parser::new(&text, &args);
    let errors = parser.parse().unwrap_err();
    assert_eq!(errors.list.len(), 1);
    assert_eq!(errors.list[0].msg, "Expect ')'.");
    assert_eq!(errors.list[0].pos.start_line, 1);
    assert_eq!(errors.list[0].pos.start_col, 6);
    assert_eq!(errors.list[0].pos.end_col, 6);
}

use iranta::args::{ArgContext, OptionArg};
use iranta::ast::expr::{Expr, ExprBinary, ExprLiteral, ExprType, ExprUnary};
use iranta::ast::binary_ope::BinaryOperator;
use iranta::ast::unary_ope::UnaryOperator;
use iranta::compiler_data::position::Position;
use iranta::compiler_data::value::{Value, ValueFloat, ValueInteger};
use iranta::debug::ast_printer::AstPrinter;
use iranta::lexer::token::{TokenInteger, TokenLiteral, TokenOperator, TokenType};
use iranta::parser::Parser;

fn span(start_col: usize, end_col: usize) -> Position {
    Position { start_line: 1, end_line: 1, start_col, end_col }
}

fn literal(start_col: usize, end_col: usize, value: i32) -> Box<Expr> {
    Box::new(Expr {
        pos: span(start_col, end_col),
        expr_type: ExprType::Literal(ExprLiteral { value: Value::Integer(ValueInteger::Int32(value)) }),
    })
}

fn binary(pos: Position, ope: BinaryOperator, lhs: Box<Expr>, rhs: Box<Expr>) -> Box<Expr> {
    Box::new(Expr { pos, expr_type: ExprType::Binary(ExprBinary { ope, lhs, rhs }) })
}

fn unary(pos: Position, ope: UnaryOperator, rhs: Box<Expr>) -> Box<Expr> {
    Box::new(Expr { pos, expr_type: ExprType::Unary(ExprUnary { ope, rhs }) })
}

fn parse_with(source: &str, options: Vec<OptionArg>) -> Result<Box<Expr>, Vec<(Position, String)>> {
    let text = source.to_string();
    let args = ArgContext { option_args: options, file_name: None };
    let mut parser = Parser::new(&text, &args);
    parser
        .parse()
        .map_err(|errors| errors.list.into_iter().map(|error| (error.pos, error.msg)).collect())
}

fn parse(source: &str) -> Box<Expr> {
    parse_with(source, vec![]).unwrap()
}

fn error(source: &str) -> (Position, String) {
    let mut errors = parse_with(source, vec![]).unwrap_err();
    assert_eq!(errors.len(), 1);
    errors.remove(0)
}

#[test]
fn a_literal_is_a_leaf() {
    assert_eq!(parse("42 "), literal(1, 2, 42));
}

#[test]
fn float_literal_keeps_its_text() {
    let expr = parse("2.50 ");
    assert_eq!(
        expr.expr_type,
        ExprType::Literal(ExprLiteral { value: Value::Float(ValueFloat::Float64("2.50".to_string())) })
    );
}

#[test]
fn binary_node_spans_both_operands() {
    assert_eq!(
        parse("1 + 22 "),
        binary(span(1, 6), BinaryOperator::Plus, literal(1, 1, 1), literal(5, 6, 22))
    );
}

#[test]
fn left_associative_tree_with_spans() {
    assert_eq!(
        parse("2-3-4 "),
        binary(
            span(1, 5),
            BinaryOperator::Minus,
            binary(span(1, 3), BinaryOperator::Minus, literal(1, 1, 2), literal(3, 3, 3)),
            literal(5, 5, 4),
        )
    );
}

#[test]
fn right_associative_tree_with_spans() {
    assert_eq!(
        parse("2**3**2 "),
        binary(
            span(1, 7),
            BinaryOperator::Power,
            literal(1, 1, 2),
            binary(span(4, 7), BinaryOperator::Power, literal(4, 4, 3), literal(7, 7, 2)),
        )
    );
}

#[test]
fn precedence_tree_with_spans() {
    assert_eq!(
        parse("2+3*4 "),
        binary(
            span(1, 5),
            BinaryOperator::Plus,
            literal(1, 1, 2),
            binary(span(3, 5), BinaryOperator::Multiply, literal(3, 3, 3), literal(5, 5, 4)),
        )
    );
    assert_eq!(
        parse("2*3+4 "),
        binary(
            span(1, 5),
            BinaryOperator::Plus,
            binary(span(1, 3), BinaryOperator::Multiply, literal(1, 1, 2), literal(3, 3, 3)),
            literal(5, 5, 4),
        )
    );
}

#[test]
fn divide_and_multiply_share_a_level() {
    assert_eq!(
        parse("8/4*2 "),
        binary(
            span(1, 5),
            BinaryOperator::Multiply,
            binary(span(1, 3), BinaryOperator::Divide, literal(1, 1, 8), literal(3, 3, 4)),
            literal(5, 5, 2),
        )
    );
}

#[test]
fn power_binds_tighter_than_multiply() {
    assert_eq!(
        parse("2*3**2 "),
        binary(
            span(1, 6),
            BinaryOperator::Multiply,
            literal(1, 1, 2),
            binary(span(3, 6), BinaryOperator::Power, literal(3, 3, 3), literal(6, 6, 2)),
        )
    );
}

#[test]
fn parentheses_override_precedence_and_span_the_node() {
    assert_eq!(
        parse("(2+3)*4 "),
        binary(
            span(1, 7),
            BinaryOperator::Multiply,
            binary(span(1, 5), BinaryOperator::Plus, literal(2, 2, 2), literal(4, 4, 3)),
            literal(7, 7, 4),
        )
    );
    assert_eq!(parse("((7)) "), literal(1, 5, 7));
}

#[test]
fn prefix_operators_make_unary_nodes() {
    assert_eq!(parse("-5 "), unary(span(1, 2), UnaryOperator::Minus, literal(2, 2, 5)));
    assert_eq!(parse("+5 "), unary(span(1, 2), UnaryOperator::Plus, literal(2, 2, 5)));
    assert_eq!(
        parse("- -5 "),
        unary(
            span(1, 4),
            UnaryOperator::Minus,
            unary(span(3, 4), UnaryOperator::Minus, literal(4, 4, 5)),
        )
    );
}

#[test]
fn prefix_operator_takes_operands_of_its_own_level() {
    assert_eq!(
        parse("-2*3 "),
        unary(
            span(1, 4),
            UnaryOperator::Minus,
            binary(span(2, 4), BinaryOperator::Multiply, literal(2, 2, 2), literal(4, 4, 3)),
        )
    );
    assert_eq!(
        parse("-2+3 "),
        unary(
            span(1, 4),
            UnaryOperator::Minus,
            binary(span(2, 4), BinaryOperator::Plus, literal(2, 2, 2), literal(4, 4, 3)),
        )
    );
}

#[test]
fn binary_minus_before_a_prefix_minus() {
    assert_eq!(
        parse("1--2 "),
        binary(
            span(1, 4),
            BinaryOperator::Minus,
            literal(1, 1, 1),
            unary(span(3, 4), UnaryOperator::Minus, literal(4, 4, 2)),
        )
    );
}

#[test]
fn empty_source_is_an_unexpected_token() {
    assert_eq!(error(""), (span(2, 2), "Unexpected token in an expression.".to_string()));
}

#[test]
fn operator_without_operand_is_an_unexpected_token() {
    assert_eq!(error("1+"), (span(4, 4), "Unexpected token in an expression.".to_string()));
    assert_eq!(error("* 2"), (span(1, 1), "Unexpected token in an expression.".to_string()));
    assert_eq!(error(") "), (span(1, 1), "Unexpected token in an expression.".to_string()));
}

#[test]
fn two_operands_in_a_row_are_an_unexpected_token() {
    assert_eq!(error("1 2 "), (span(3, 3), "Unexpected token in an expression.".to_string()));
    assert_eq!(error("1 ( "), (span(3, 3), "Unexpected token in an expression.".to_string()));
    assert_eq!(error("1 ) "), (span(3, 3), "Unexpected token in an expression.".to_string()));
}

#[test]
fn closing_parenthesis_without_an_opening_one_is_unexpected() {
    assert_eq!(error("(1))  "), (span(4, 4), "Unexpected token in an expression.".to_string()));
    assert_eq!(error("1+2) "), (span(4, 4), "Unexpected token in an expression.".to_string()));
}

#[test]
fn unclosed_parenthesis_wants_its_closing_one() {
    assert_eq!(error("(1+2"), (span(6, 6), "Expect ')'.".to_string()));
    assert_eq!(error("((1) "), (span(7, 7), "Expect ')'.".to_string()));
    assert_eq!(error("(1 "), (span(5, 5), "Expect ')'.".to_string()));
    assert_eq!(error("(1 * "), (span(7, 7), "Unexpected token in an expression.".to_string()));
}

#[test]
fn stray_token_in_parentheses_is_reported_where_it_stands() {
    assert_eq!(error("(1 2) "), (span(4, 4), "Unexpected token in an expression.".to_string()));
}

#[test]
fn lexical_error_surfaces_as_the_one_syntax_error() {
    assert_eq!(error("1 + @"), (span(7, 7), "Invalid character.".to_string()));
    assert_eq!(error("1 + @ "), (span(5, 5), "Invalid character.".to_string()));
    assert_eq!(error("1..2"), (span(2, 2), "Unexpected dot.".to_string()));
    assert_eq!(error("(1 $"), (span(6, 6), "Invalid character.".to_string()));
}

#[test]
fn parsing_stops_at_the_first_error() {
    let errors = parse_with("@ @ @", vec![]).unwrap_err();
    assert_eq!(errors.len(), 1);
}

#[test]
fn debug_option_echoes_the_consumed_tokens() {
    let text = "1+2".to_string();
    let args = ArgContext { option_args: vec![OptionArg::DebugPrintToken], file_name: None };
    let mut parser = Parser::new(&text, &args);
    parser.parse().unwrap();
    let kinds: Vec<TokenType> = parser.take_echo().into_iter().map(|token| token.token_type).collect();
    assert_eq!(
        kinds,
        vec![
            TokenType::Literal(TokenLiteral::Integer(TokenInteger::Int32(1))),
            TokenType::Operator(TokenOperator::Plus),
            TokenType::Literal(TokenLiteral::Integer(TokenInteger::Int32(2))),
        ]
    );
    let quiet = ArgContext { option_args: vec![OptionArg::EmitLLVM], file_name: None };
    let mut parser = Parser::new(&text, &quiet);
    parser.parse().unwrap();
    assert_eq!(parser.take_echo(), vec![]);
}

#[test]
fn a_literal_is_printed_on_one_line() {
    let printer = AstPrinter::new();
    assert_eq!(
        printer.print_expr(&parse("1")),
        "[line 1 | column 3] Expr::Literal { value: int32(1) }"
    );
}

#[test]
fn children_are_printed_indented() {
    let printer = AstPrinter::new();
    assert_eq!(
        printer.print_expr(&parse("-1 ")),
        "[line 1 | column 1:2] Expr::Unary {\n    ope: -\n    rhs: [line 1 | column 2] Expr::Literal { value: int32(1) }\n}"
    );
    assert_eq!(
        printer.print_expr(&parse("1+2*3 ")),
        "[line 1 | column 1:5] Expr::Binary {\n    ope: +\n    lhs: [line 1 | column 1] Expr::Literal { value: int32(1) }\n    rhs: [line 1 | column 3:5] Expr::Binary {\n        ope: *\n        lhs: [line 1 | column 3] Expr::Literal { value: int32(2) }\n        rhs: [line 1 | column 5] Expr::Literal { value: int32(3) }\n    }\n}"
    );
}

#[test]
fn indent_lays_out_lines() {
    let printer = AstPrinter::new();
    assert_eq!(printer.indent(""), "");
    assert_eq!(printer.indent("  one  "), "one");
    assert_eq!(printer.indent("a\nb"), "a\nb");
    assert_eq!(printer.indent("a\nb\nc\n"), "a\n    b\nc");
    assert_eq!(printer.indent("a\r\nb\r\nc"), "a\n    b\nc");
    assert_eq!(printer.indent("a\n\nb\nc"), "a\n    \n    b\nc");
    assert_eq!(printer.indent("a\nb\n \n"), "a\n    b");
}

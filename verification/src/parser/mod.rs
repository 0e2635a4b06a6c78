//! The parser: precedence climbing over the lexer's tokens.
//!
//! `parse_expression` consumes one token, takes its prefix action, and then
//! folds binary operators into the expression as long as they bind at least
//! as tightly as the caller asks. The spec functions of this module say, for
//! every state of the lexer, which tree or which error comes out and where
//! the lexer stands afterwards. The first failure ends parsing.

pub mod error;

use crate::args::{ArgContext, OptionArg};
use crate::ast::binary_ope::BinaryOperator;
use crate::ast::expr::{tree_of, Expr, ExprBinary, ExprLiteral, ExprType, ExprUnary, Tree};
use crate::ast::unary_ope::UnaryOperator;
use crate::compiler_data::position::Position;
use crate::compiler_data::value::{Value, ValueFloat, ValueInteger};
use crate::lexer::token::{
    Lexeme,
    Token,
    TokenFloat,
    TokenInteger,
    TokenKind,
    TokenLiteral,
    TokenOperator,
    TokenParen,
    TokenType,
};
use crate::lexer::context::LexerContext;
use crate::lexer::{lemma_pull_progress, Lexer, LexerState};
use crate::main_error::Diagnostic;
use crate::parser::error::{SyntaxError, SyntaxErrorList, SyntaxResultList};
use vstd::prelude::*;

verus! {

/// The binding powers of an operator, left and right. The right one of
/// plus, minus, multiply and divide is above the left one, so they associate
/// to the left; that of power is below, so it associates to the right.
pub open spec fn binding_power(operator: TokenOperator) -> (u32, u32) {
    match operator {
        TokenOperator::Plus => (50u32, 51u32),
        TokenOperator::Minus => (50u32, 51u32),
        TokenOperator::Multiply => (60u32, 61u32),
        TokenOperator::Divide => (60u32, 61u32),
        TokenOperator::Power => (71u32, 70u32),
    }
}

/// The binary operator that an operator token stands for between two operands.
pub open spec fn binary_operator(operator: TokenOperator) -> BinaryOperator {
    match operator {
        TokenOperator::Plus => BinaryOperator::Plus,
        TokenOperator::Minus => BinaryOperator::Minus,
        TokenOperator::Multiply => BinaryOperator::Multiply,
        TokenOperator::Divide => BinaryOperator::Divide,
        TokenOperator::Power => BinaryOperator::Power,
    }
}

/// The binary node of `left` and `right`; it spans from the start of the
/// left operand to the end of the right one.
pub open spec fn fold_binary(left: Tree, operator: TokenOperator, right: Tree) -> Tree {
    Tree::Binary {
        pos: Position::spec_combine(left.pos(), right.pos()),
        ope: binary_operator(operator),
        lhs: Box::new(left),
        rhs: Box::new(right),
    }
}

/// The unary node of `sign` before `operand`; it spans from the sign to the
/// end of the operand.
pub open spec fn fold_unary(sign: Lexeme, ope: UnaryOperator, operand: Tree) -> Tree {
    Tree::Unary {
        pos: Position::spec_combine(sign.pos, operand.pos()),
        ope,
        rhs: Box::new(operand),
    }
}

/// The error for a token that cannot stand where it does.
pub open spec fn unexpected_token(pos: Position) -> Diagnostic {
    Diagnostic { pos, msg: "Unexpected token in an expression."@ }
}

/// The error for a parenthesis that is not closed.
pub open spec fn expect_paren(pos: Position) -> Diagnostic {
    Diagnostic { pos, msg: "Expect ')'."@ }
}

/// What a parsing step yields: a tree or the error that ended parsing, and
/// the state of the lexer afterwards.
pub struct Parse {
    pub outcome: Result<Tree, Diagnostic>,
    pub state: LexerState,
}

/// Whether a token starts an operand that is itself parsed as an expression.
pub open spec fn opens_operand(kind: TokenKind) -> bool {
    kind == TokenKind::Paren(TokenParen::LeftParen) || kind == TokenKind::Operator(
        TokenOperator::Plus,
    ) || kind == TokenKind::Operator(TokenOperator::Minus)
}

/// Parses an expression whose operators all bind with at least `min_bp`:
/// one token is consumed and its prefix action taken, then binary operators
/// are folded in.
///
/// The test on `operand.state` is met whenever it is reached: a prefix
/// action leaves no more to read than it found.
pub open spec fn parse_expression(state: LexerState, min_bp: u32, debug: bool) -> Parse
    decreases 2 * state.remaining() + 2,
    when state.wf()
{
    let first = state.get(debug);
    match first.outcome {
        Err(error) => Parse { outcome: Err(error), state: first.state },
        Ok(token) => {
            proof {
                lemma_pull_progress(state, debug);
            }
            let operand = parse_prefix(first.state, token, debug);
            match operand.outcome {
                Err(_) => operand,
                Ok(left) => if operand.state.wf() && operand.state.remaining()
                    <= first.state.remaining() {
                    parse_infix(operand.state, left, min_bp, debug)
                } else {
                    operand
                },
            }
        },
    }
}

/// The prefix action of `token`, which was consumed just before:
/// - a literal is a leaf;
/// - `(` parses an expression with no lower bound and wants a `)` behind it;
///   the node then spans both parentheses;
/// - `+` and `-` parse their operand with the operator's own left binding
///   power and make a unary node;
/// - any other token is an error.
pub open spec fn parse_prefix(state: LexerState, token: Lexeme, debug: bool) -> Parse
    decreases
            (if opens_operand(token.kind) {
                2 * state.remaining() + 3
            } else {
                0
            }),
    when state.wf()
{
    match token.kind {
        TokenKind::Literal(value) => Parse {
            outcome: Ok(Tree::Literal { pos: token.pos, value }),
            state,
        },
        TokenKind::Paren(TokenParen::LeftParen) => {
            let inner = parse_expression(state, 0, debug);
            match inner.outcome {
                Err(_) => inner,
                Ok(expr) => {
                    let closing = inner.state.get(debug);
                    Parse {
                        outcome: match closing.outcome {
                            Err(error) => Err(error),
                            Ok(paren) => if paren.kind == TokenKind::Paren(
                                TokenParen::RightParen,
                            ) {
                                Ok(expr.at(Position::spec_combine(token.pos, paren.pos)))
                            } else {
                                Err(expect_paren(paren.pos))
                            },
                        },
                        state: closing.state,
                    }
                },
            }
        },
        TokenKind::Operator(TokenOperator::Plus) => {
            let operand = parse_expression(state, binding_power(TokenOperator::Plus).0, debug);
            match operand.outcome {
                Err(_) => operand,
                Ok(expr) => Parse {
                    outcome: Ok(fold_unary(token, UnaryOperator::Plus, expr)),
                    state: operand.state,
                },
            }
        },
        TokenKind::Operator(TokenOperator::Minus) => {
            let operand = parse_expression(state, binding_power(TokenOperator::Minus).0, debug);
            match operand.outcome {
                Err(_) => operand,
                Ok(expr) => Parse {
                    outcome: Ok(fold_unary(token, UnaryOperator::Minus, expr)),
                    state: operand.state,
                },
            }
        },
        _ => Parse { outcome: Err(unexpected_token(token.pos)), state },
    }
}

/// Folds binary operators into `left`. The next token is looked at:
/// - the end of the input ends the expression, and so does a `)`, which
///   stays unconsumed for the prefix action that opened the parenthesis;
/// - an operator whose left binding power is below `min_bp` ends it too and
///   stays unconsumed;
/// - any other operator is consumed, its right operand is parsed with the
///   operator's right binding power, and folding goes on with the binary node;
/// - any other token is an error.
///
/// The test on `rhs.state` is met whenever it is reached: parsing an
/// expression consumes at least one token.
pub open spec fn parse_infix(state: LexerState, left: Tree, min_bp: u32, debug: bool) -> Parse
    decreases 2 * state.remaining() + 1,
    when state.wf()
{
    let ahead = state.peek();
    match ahead.outcome {
        Err(error) => Parse { outcome: Err(error), state: ahead.state },
        Ok(token) => match token.kind {
            TokenKind::EOF => Parse { outcome: Ok(left), state: ahead.state },
            TokenKind::Paren(TokenParen::RightParen) => Parse {
                outcome: Ok(left),
                state: ahead.state,
            },
            TokenKind::Operator(operator) => if binding_power(operator).0 < min_bp {
                Parse { outcome: Ok(left), state: ahead.state }
            } else {
                proof {
                    lemma_pull_progress(state, debug);
                    lemma_pull_progress(ahead.state, debug);
                }
                let rhs = parse_expression(
                    ahead.state.get(debug).state,
                    binding_power(operator).1,
                    debug,
                );
                match rhs.outcome {
                    Err(_) => rhs,
                    Ok(right) => if rhs.state.wf() && rhs.state.remaining() < state.remaining() {
                        parse_infix(rhs.state, fold_binary(left, operator, right), min_bp, debug)
                    } else {
                        Parse {
                            outcome: Ok(fold_binary(left, operator, right)),
                            state: rhs.state,
                        }
                    },
                }
            },
            _ => Parse { outcome: Err(unexpected_token(token.pos)), state: ahead.state },
        },
    }
}

/// Parses the whole source as one expression: the expression must reach the
/// end of the input, and a token behind it is an error.
pub open spec fn parse_source(state: LexerState, debug: bool) -> Parse {
    let parsed = parse_expression(state, 0, debug);
    match parsed.outcome {
        Err(_) => parsed,
        Ok(tree) => {
            let ahead = parsed.state.peek();
            Parse {
                outcome: match ahead.outcome {
                    Err(error) => Err(error),
                    Ok(token) => if token.kind is EOF {
                        Ok(tree)
                    } else {
                        Err(unexpected_token(token.pos))
                    },
                },
                state: ahead.state,
            }
        },
    }
}

/// A parenthesis that the end of the input leaves open is reported at the
/// end of the input: where the source starts with `(`, an expression follows
/// and then the end-of-input token, parsing fails with "Expect ')'." at the
/// span of that token.
pub proof fn lemma_unclosed_parenthesis(state: LexerState, debug: bool)
    requires
        state.wf(),
        state.get(debug).outcome matches Ok(open) && open.kind == TokenKind::Paren(
            TokenParen::LeftParen,
        ),
        parse_expression(state.get(debug).state, 0, debug).outcome is Ok,
        parse_expression(state.get(debug).state, 0, debug).state.get(debug).outcome matches Ok(
            end,
        ) && end.kind is EOF,
    ensures
        parse_source(state, debug).outcome == Err::<Tree, Diagnostic>(
            expect_paren(
                parse_expression(state.get(debug).state, 0, debug).state.get(
                    debug,
                ).outcome->Ok_0.pos,
            ),
        ),
{
    lemma_pull_progress(state, debug);
}

/// Parsing an expression leaves the lexer well-formed with no more to read
/// than before, and with less where it succeeds: an expression takes at
/// least one token. So the test on `operand.state` in `parse_expression` is
/// always met.
pub proof fn lemma_parse_expression_progress(state: LexerState, min_bp: u32, debug: bool)
    requires
        state.wf(),
    ensures
        parse_expression(state, min_bp, debug).state.wf(),
        parse_expression(state, min_bp, debug).state.remaining() <= state.remaining(),
        parse_expression(state, min_bp, debug).outcome is Ok ==> parse_expression(
            state,
            min_bp,
            debug,
        ).state.remaining() < state.remaining(),
    decreases 2 * state.remaining() + 2,
{
    lemma_pull_progress(state, debug);
    let first = state.get(debug);
    if let Ok(token) = first.outcome {
        lemma_parse_prefix_progress(first.state, token, debug);
        let operand = parse_prefix(first.state, token, debug);
        if let Ok(left) = operand.outcome {
            lemma_parse_infix_progress(operand.state, left, min_bp, debug);
        }
    }
}

/// A prefix action leaves the lexer well-formed with no more to read than
/// before; one that succeeds was taken for a token that is not the end of
/// the input.
pub proof fn lemma_parse_prefix_progress(state: LexerState, token: Lexeme, debug: bool)
    requires
        state.wf(),
    ensures
        parse_prefix(state, token, debug).state.wf(),
        parse_prefix(state, token, debug).state.remaining() <= state.remaining(),
        parse_prefix(state, token, debug).outcome is Ok ==> !(token.kind is EOF),
    decreases
            (if opens_operand(token.kind) {
                2 * state.remaining() + 3
            } else {
                0
            }),
{
    match token.kind {
        TokenKind::Paren(TokenParen::LeftParen) => {
            lemma_parse_expression_progress(state, 0, debug);
            let inner = parse_expression(state, 0, debug);
            if inner.outcome is Ok {
                lemma_pull_progress(inner.state, debug);
            }
        },
        TokenKind::Operator(TokenOperator::Plus) => {
            lemma_parse_expression_progress(
                state,
                binding_power(TokenOperator::Plus).0,
                debug,
            );
        },
        TokenKind::Operator(TokenOperator::Minus) => {
            lemma_parse_expression_progress(
                state,
                binding_power(TokenOperator::Minus).0,
                debug,
            );
        },
        _ => {},
    }
}

/// Folding binary operators leaves the lexer well-formed with no more to
/// read than before. So the test on `rhs.state` in `parse_infix` is always met.
pub proof fn lemma_parse_infix_progress(state: LexerState, left: Tree, min_bp: u32, debug: bool)
    requires
        state.wf(),
    ensures
        parse_infix(state, left, min_bp, debug).state.wf(),
        parse_infix(state, left, min_bp, debug).state.remaining() <= state.remaining(),
    decreases 2 * state.remaining() + 1,
{
    lemma_pull_progress(state, debug);
    let ahead = state.peek();
    if let Ok(token) = ahead.outcome {
        if let TokenKind::Operator(operator) = token.kind {
            if binding_power(operator).0 >= min_bp {
                lemma_pull_progress(ahead.state, debug);
                let taken = ahead.state.get(debug).state;
                lemma_parse_expression_progress(taken, binding_power(operator).1, debug);
                let rhs = parse_expression(taken, binding_power(operator).1, debug);
                if let Ok(right) = rhs.outcome {
                    lemma_parse_infix_progress(
                        rhs.state,
                        fold_binary(left, operator, right),
                        min_bp,
                        debug,
                    );
                }
            }
        }
    }
}

/// Whether what a parsing function returned is what the contract expects:
/// the same tree, or a list of the one expected error.
pub open spec fn agrees(outcome: SyntaxResultList<Box<Expr>>, expected: Result<Tree, Diagnostic>) -> bool {
    match outcome {
        Ok(expr) => expected == Ok::<Tree, Diagnostic>(tree_of(*expr)),
        Err(errors) => expected is Err && errors@ == seq![expected->Err_0],
    }
}

/// The parser of one source text.
pub struct Parser {
    lexer_ctx: LexerContext,
    lexer: Lexer,
}

impl Parser {
    /// The state of the parser's lexer.
    pub closed spec fn lexer_state(&self) -> LexerState {
        self.lexer@
    }

    /// Whether consumed tokens are kept for echoing.
    pub closed spec fn debug(&self) -> bool {
        self.lexer_ctx.debug_print_token
    }

    /// The parser's lexer is well-formed.
    pub open spec fn wf(&self) -> bool {
        self.lexer_state().wf()
    }

    /// A parser at the start of `source`. Debug mode is on where the options
    /// hold `DebugPrintToken`.
    #[must_use]
    pub fn new(source: &String, arg_ctx: &ArgContext) -> (parser: Parser)
        requires
            source@.len() + 2 <= usize::MAX,
        ensures
            parser.wf(),
            parser.lexer_state() == Lexer::spec_new(source@),
            parser.debug() == exists|i: int|
                0 <= i < arg_ctx.option_args@.len() && arg_ctx.option_args@[i]
                    is DebugPrintToken,
    {
        let mut found = false;
        let mut i: usize = 0;
        while i < arg_ctx.option_args.len()
            invariant
                i <= arg_ctx.option_args.len(),
                found == exists|j: int| 0 <= j < i && arg_ctx.option_args@[j] is DebugPrintToken,
            decreases arg_ctx.option_args.len() - i,
        {
            if let OptionArg::DebugPrintToken = &arg_ctx.option_args[i] {
                found = true;
            }
            i += 1;
        }
        Parser { lexer_ctx: LexerContext { debug_print_token: found }, lexer: Lexer::new(source) }
    }

    /// Parses the source as one expression that reaches the end of the input.
    pub fn parse(&mut self) -> (outcome: SyntaxResultList<Box<Expr>>)
        requires
            old(self).wf(),
        ensures
            final(self).wf(),
            final(self).debug() == old(self).debug(),
            agrees(outcome, parse_source(old(self).lexer_state(), old(self).debug()).outcome),
            final(self).lexer_state() == parse_source(
                old(self).lexer_state(),
                old(self).debug(),
            ).state,
    {
        let expr = match self.parse_expression(0) {
            Ok(expr) => expr,
            Err(errors) => {
                return Err(errors);
            },
        };
        proof {
            lemma_pull_progress(self.lexer@, self.lexer_ctx.debug_print_token);
        }
        let ahead = match self.lexer.peek_token(&self.lexer_ctx) {
            Ok(token) => token,
            Err(error) => {
                return Err(SyntaxErrorList::from_lexical(error));
            },
        };
        if ahead.is_eof() {
            Ok(expr)
        } else {
            Err(
                SyntaxErrorList::from(
                    SyntaxError::new(ahead.pos, "Unexpected token in an expression.".to_owned()),
                ),
            )
        }
    }

    /// Hands out the tokens consumed in debug mode since the last call.
    pub fn take_echo(&mut self) -> (echo: Vec<Token>)
        requires
            old(self).wf(),
        ensures
            final(self).wf(),
            final(self).debug() == old(self).debug(),
            echo@.map_values(|token: Token| token@) == old(self).lexer_state().echo,
            final(self).lexer_state() == (LexerState {
                echo: Seq::empty(),
                ..old(self).lexer_state()
            }),
    {
        self.lexer.take_echo()
    }

    /// The binding powers of an operator, left and right.
    #[must_use]
    fn precedence(operator: &TokenOperator) -> (powers: (u32, u32))
        ensures
            powers == binding_power(*operator),
    {
        match operator {
            TokenOperator::Plus => (50, 51),
            TokenOperator::Minus => (50, 51),
            TokenOperator::Multiply => (60, 61),
            TokenOperator::Divide => (60, 61),
            TokenOperator::Power => (71, 70),
        }
    }

    #[verifier::rlimit(60)]
    fn parse_expression(&mut self, last_rbp: u32) -> (outcome: SyntaxResultList<Box<Expr>>)
        requires
            old(self).wf(),
        ensures
            final(self).wf(),
            final(self).debug() == old(self).debug(),
            agrees(
                outcome,
                parse_expression(old(self).lexer_state(), last_rbp, old(self).debug()).outcome,
            ),
            final(self).lexer_state() == parse_expression(
                old(self).lexer_state(),
                last_rbp,
                old(self).debug(),
            ).state,
            final(self).lexer_state().remaining() <= old(self).lexer_state().remaining(),
            outcome is Ok ==> final(self).lexer_state().remaining() < old(
                self,
            ).lexer_state().remaining(),
        decreases 2 * old(self).lexer_state().remaining() + 2,
    {
        let ghost entry = self.lexer@;
        let ghost debug = self.lexer_ctx.debug_print_token;
        proof {
            lemma_pull_progress(entry, debug);
        }
        let token = match self.lexer.get_token(&self.lexer_ctx) {
            Ok(token) => token,
            Err(error) => {
                return Err(SyntaxErrorList::from_lexical(error));
            },
        };
        let mut left = match self.parse_expr_nud(&token) {
            Ok(left) => left,
            Err(errors) => {
                return Err(errors);
            },
        };
        let ghost whole = parse_expression(entry, last_rbp, debug);
        loop
            invariant
                self.wf(),
                self.lexer_ctx.debug_print_token == debug,
                debug == old(self).lexer_ctx.debug_print_token,
                entry == old(self).lexer@,
                entry.wf(),
                whole == parse_expression(entry, last_rbp, debug),
                self.lexer@.remaining() < entry.remaining(),
                parse_infix(self.lexer@, tree_of(*left), last_rbp, debug) == whole,
            decreases self.lexer@.remaining(),
        {
            let ghost before = self.lexer@;
            proof {
                lemma_pull_progress(before, debug);
            }
            let current = match self.lexer.peek_token(&self.lexer_ctx) {
                Ok(token) => token,
                Err(error) => {
                    return Err(SyntaxErrorList::from_lexical(error));
                },
            };
            match &current.token_type {
                TokenType::EOF => {
                    return Ok(left);
                },
                TokenType::Paren(TokenParen::RightParen) => {
                    return Ok(left);
                },
                TokenType::Operator(ope) => {
                    let operator = *ope;
                    let (lbp, rbp) = Self::precedence(&operator);
                    if lbp < last_rbp {
                        return Ok(left);
                    }
                    proof {
                        lemma_pull_progress(self.lexer@, debug);
                    }
                    match self.lexer.get_token(&self.lexer_ctx) {
                        Ok(_) => {},
                        Err(error) => {
                            return Err(SyntaxErrorList::from_lexical(error));
                        },
                    }
                    left = match self.parse_expr_led(&operator, left, rbp) {
                        Ok(folded) => folded,
                        Err(errors) => {
                            return Err(errors);
                        },
                    };
                },
                _ => {
                    return Err(
                        SyntaxErrorList::from(
                            SyntaxError::new(
                                current.pos,
                                "Unexpected token in an expression.".to_owned(),
                            ),
                        ),
                    );
                },
            }
        }
    }

    fn parse_expr_nud(&mut self, token: &Token) -> (outcome: SyntaxResultList<Box<Expr>>)
        requires
            old(self).wf(),
        ensures
            final(self).wf(),
            final(self).debug() == old(self).debug(),
            agrees(outcome, parse_prefix(old(self).lexer_state(), token@, old(self).debug()).outcome),
            final(self).lexer_state() == parse_prefix(
                old(self).lexer_state(),
                token@,
                old(self).debug(),
            ).state,
            final(self).lexer_state().remaining() <= old(self).lexer_state().remaining(),
        decreases
                (if opens_operand(token@.kind) {
                    2 * old(self).lexer_state().remaining() + 3
                } else {
                    0
                }),
    {
        let ghost debug = self.lexer_ctx.debug_print_token;
        match &token.token_type {
            TokenType::Literal(literal) => Ok(
                Box::new(
                    Expr {
                        pos: token.pos,
                        expr_type: ExprType::Literal(
                            ExprLiteral { value: Self::token_literal_to_value(literal) },
                        ),
                    },
                ),
            ),
            TokenType::Paren(TokenParen::LeftParen) => {
                let expr = match self.parse_expression(0) {
                    Ok(expr) => expr,
                    Err(errors) => {
                        return Err(errors);
                    },
                };
                proof {
                    lemma_pull_progress(self.lexer@, debug);
                }
                let ahead = match self.lexer.peek_token(&self.lexer_ctx) {
                    Ok(token) => token,
                    Err(error) => {
                        return Err(SyntaxErrorList::from_lexical(error));
                    },
                };
                proof {
                    lemma_pull_progress(self.lexer@, debug);
                }
                let closing = match self.lexer.get_token(&self.lexer_ctx) {
                    Ok(token) => token,
                    Err(error) => {
                        return Err(SyntaxErrorList::from_lexical(error));
                    },
                };
                if !matches!(ahead.token_type, TokenType::Paren(TokenParen::RightParen)) {
                    return Err(
                        SyntaxErrorList::from(
                            SyntaxError::new(closing.pos, "Expect ')'.".to_owned()),
                        ),
                    );
                }
                let inner = *expr;
                Ok(
                    Box::new(
                        Expr {
                            pos: Position::combine(&token.pos, &closing.pos),
                            expr_type: inner.expr_type,
                        },
                    ),
                )
            },
            TokenType::Operator(TokenOperator::Plus) => {
                let (lbp, _rbp) = Self::precedence(&TokenOperator::Plus);
                let expr = match self.parse_expression(lbp) {
                    Ok(expr) => expr,
                    Err(errors) => {
                        return Err(errors);
                    },
                };
                Ok(
                    Box::new(
                        Expr {
                            pos: Position::combine(&token.pos, &expr.pos),
                            expr_type: ExprType::Unary(
                                ExprUnary { ope: UnaryOperator::Plus, rhs: expr },
                            ),
                        },
                    ),
                )
            },
            TokenType::Operator(TokenOperator::Minus) => {
                let (lbp, _rbp) = Self::precedence(&TokenOperator::Minus);
                let expr = match self.parse_expression(lbp) {
                    Ok(expr) => expr,
                    Err(errors) => {
                        return Err(errors);
                    },
                };
                Ok(
                    Box::new(
                        Expr {
                            pos: Position::combine(&token.pos, &expr.pos),
                            expr_type: ExprType::Unary(
                                ExprUnary { ope: UnaryOperator::Minus, rhs: expr },
                            ),
                        },
                    ),
                )
            },
            _ => Err(
                SyntaxErrorList::from(
                    SyntaxError::new(token.pos, "Unexpected token in an expression.".to_owned()),
                ),
            ),
        }
    }

    fn parse_expr_led(
        &mut self,
        operator: &TokenOperator,
        lhs: Box<Expr>,
        rbp: u32,
    ) -> (outcome: SyntaxResultList<Box<Expr>>)
        requires
            old(self).wf(),
        ensures
            final(self).wf(),
            final(self).debug() == old(self).debug(),
            final(self).lexer_state() == parse_expression(
                old(self).lexer_state(),
                rbp,
                old(self).debug(),
            ).state,
            match parse_expression(old(self).lexer_state(), rbp, old(self).debug()).outcome {
                Ok(right) => agrees(
                    outcome,
                    Ok(fold_binary(tree_of(*lhs), *operator, right)),
                ),
                Err(error) => agrees(outcome, Err(error)),
            },
            final(self).lexer_state().remaining() <= old(self).lexer_state().remaining(),
            outcome is Ok ==> final(self).lexer_state().remaining() < old(
                self,
            ).lexer_state().remaining(),
        decreases 2 * old(self).lexer_state().remaining() + 3,
    {
        let rhs = match self.parse_expression(rbp) {
            Ok(rhs) => rhs,
            Err(errors) => {
                return Err(errors);
            },
        };
        let ope = match operator {
            TokenOperator::Plus => BinaryOperator::Plus,
            TokenOperator::Minus => BinaryOperator::Minus,
            TokenOperator::Multiply => BinaryOperator::Multiply,
            TokenOperator::Divide => BinaryOperator::Divide,
            TokenOperator::Power => BinaryOperator::Power,
        };
        Ok(
            Box::new(
                Expr {
                    pos: Position::combine(&lhs.pos, &rhs.pos),
                    expr_type: ExprType::Binary(ExprBinary { ope, lhs, rhs }),
                },
            ),
        )
    }

    /// The payload of a literal token.
    fn token_literal_to_value(literal: &TokenLiteral) -> (value: Value)
        ensures
            value@ == literal@,
    {
        match literal {
            TokenLiteral::Integer(integer) => {
                match integer {
                    TokenInteger::Int8(number) => Value::Integer(ValueInteger::Int8(*number)),
                    TokenInteger::UInt8(number) => Value::Integer(ValueInteger::UInt8(*number)),
                    TokenInteger::Int16(number) => Value::Integer(ValueInteger::Int16(*number)),
                    TokenInteger::UInt16(number) => Value::Integer(ValueInteger::UInt16(*number)),
                    TokenInteger::Int32(number) => Value::Integer(ValueInteger::Int32(*number)),
                    TokenInteger::UInt32(number) => Value::Integer(ValueInteger::UInt32(*number)),
                    TokenInteger::Int64(number) => Value::Integer(ValueInteger::Int64(*number)),
                    TokenInteger::UInt64(number) => Value::Integer(ValueInteger::UInt64(*number)),
                    TokenInteger::Int128(number) => Value::Integer(ValueInteger::Int128(*number)),
                    TokenInteger::UInt128(number) => Value::Integer(ValueInteger::UInt128(*number)),
                }
            },
            TokenLiteral::Float(float) => {
                match float {
                    TokenFloat::Float32(text) => Value::Float(ValueFloat::Float32(text.clone())),
                    TokenFloat::Float64(text) => Value::Float(ValueFloat::Float64(text.clone())),
                }
            },
        }
    }
}

} // verus!

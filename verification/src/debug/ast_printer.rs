//! A printer of expression trees, one field per line, children indented.

use crate::ast::expr::{tree_of, Expr, ExprBinary, ExprLiteral, ExprType, ExprUnary, Tree};
use crate::compiler_data::position::Position;
use crate::text::{append_chars, chars_of, lines_of, split_lines, trim, trimmed};
use vstd::prelude::*;

verus! {

/// Line `i` of an indented node: the first line as it is, the lines of the
/// fields four spaces in, the last line, which closes the node, as it is
/// and without a line ending.
pub open spec fn laid_out_line(lines: Seq<Seq<char>>, i: int) -> Seq<char> {
    if i == 0 {
        lines[i] + "\n"@
    } else if i == lines.len() - 1 {
        lines[i]
    } else {
        "    "@ + lines[i] + "\n"@
    }
}

/// The lines of a node from line `i` on, laid out one after the other.
pub open spec fn laid_out_from(lines: Seq<Seq<char>>, i: int) -> Seq<char>
    decreases lines.len() - i,
{
    if i < 0 || i >= lines.len() {
        Seq::empty()
    } else {
        laid_out_line(lines, i) + laid_out_from(lines, i + 1)
    }
}

/// The text of a node with the lines between its first and its last
/// indented by four spaces, and without whitespace around it.
pub open spec fn indented(text: Seq<char>) -> Seq<char> {
    trimmed(laid_out_from(lines_of(text), 0))
}

/// The text of a node before indenting: its span, its kind and its fields.
pub open spec fn node_text(tree: Tree) -> Seq<char>
    decreases tree, 0nat,
{
    match tree {
        Tree::Literal { pos, value } => pos.text() + " Expr::Literal { value: "@ + value.text()
            + " } "@,
        Tree::Unary { pos, ope, rhs } => pos.text() + " Expr::Unary {\nope: "@ + ope.symbol()
            + "\nrhs: "@ + printed(*rhs) + "\n}"@,
        Tree::Binary { pos, ope, lhs, rhs } => pos.text() + " Expr::Binary {\nope: "@
            + ope.symbol() + "\nlhs: "@ + printed(*lhs) + "\nrhs: "@ + printed(*rhs) + "\n}"@,
    }
}

/// An expression tree as text: every node with its fields on lines of their
/// own, each level of children four spaces further in.
pub open spec fn printed(tree: Tree) -> Seq<char>
    decreases tree, 1nat,
{
    indented(node_text(tree))
}

/// A printer of expression trees.
pub struct AstPrinter {}

impl AstPrinter {
    /// A printer.
    #[must_use]
    pub fn new() -> (printer: AstPrinter) {
        AstPrinter {  }
    }

    /// The tree of `expr` as text.
    #[must_use]
    pub fn print_expr(&self, expr: &Expr) -> (text: String)
        ensures
            text@ == printed(tree_of(*expr)),
        decreases expr,
    {
        let node = match &expr.expr_type {
            ExprType::Literal(literal) => self.print_expr_literal(&expr.pos, literal),
            ExprType::Unary(unary) => self.print_expr_unary(&expr.pos, unary),
            ExprType::Binary(binary) => self.print_expr_binary(&expr.pos, binary),
        };
        self.indent(node.as_str())
    }

    #[must_use]
    fn print_expr_literal(&self, pos: &Position, literal: &ExprLiteral) -> (text: String)
        ensures
            text@ == node_text(Tree::Literal { pos: *pos, value: literal.value@ }),
    {
        let mut text = pos.to_string();
        text.append(" Expr::Literal { value: ");
        let value = literal.value.to_string();
        text.append(value.as_str());
        text.append(" } ");
        text
    }

    #[must_use]
    fn print_expr_unary(&self, pos: &Position, unary: &ExprUnary) -> (text: String)
        ensures
            text@ == node_text(
                Tree::Unary { pos: *pos, ope: unary.ope, rhs: Box::new(tree_of(*unary.rhs)) },
            ),
        decreases unary,
    {
        let mut text = pos.to_string();
        text.append(" Expr::Unary {\nope: ");
        let ope = unary.ope.to_string();
        text.append(ope.as_str());
        text.append("\nrhs: ");
        let rhs = self.print_expr(&unary.rhs);
        text.append(rhs.as_str());
        text.append("\n}");
        text
    }

    #[must_use]
    fn print_expr_binary(&self, pos: &Position, binary: &ExprBinary) -> (text: String)
        ensures
            text@ == node_text(
                Tree::Binary {
                    pos: *pos,
                    ope: binary.ope,
                    lhs: Box::new(tree_of(*binary.lhs)),
                    rhs: Box::new(tree_of(*binary.rhs)),
                },
            ),
        decreases binary,
    {
        let mut text = pos.to_string();
        text.append(" Expr::Binary {\nope: ");
        let ope = binary.ope.to_string();
        text.append(ope.as_str());
        text.append("\nlhs: ");
        let lhs = self.print_expr(&binary.lhs);
        text.append(lhs.as_str());
        text.append("\nrhs: ");
        let rhs = self.print_expr(&binary.rhs);
        text.append(rhs.as_str());
        text.append("\n}");
        text
    }

    /// `text` with the lines between its first and its last indented by four
    /// spaces, and without whitespace around it.
    #[must_use]
    pub fn indent(&self, text: &str) -> (out: String)
        ensures
            out@ == indented(text@),
    {
        let chars = chars_of(text);
        let lines = split_lines(&chars);
        let ghost all = lines_of(text@);
        let newline = chars_of("\n");
        let spaces = chars_of("    ");
        let mut out: Vec<char> = Vec::new();
        let mut i: usize = 0;
        assert(out@ + laid_out_from(all, 0) =~= laid_out_from(all, 0));
        while i < lines.len()
            invariant
                i <= lines.len(),
                all == lines@.map_values(|line: Vec<char>| line@),
                newline@ == "\n"@,
                spaces@ == "    "@,
                out@ + laid_out_from(all, i as int) == laid_out_from(all, 0),
            decreases lines.len() - i,
        {
            let ghost before = out@;
            assert(all[i as int] == lines@[i as int]@);
            if i == 0 {
                append_chars(&mut out, &lines[i]);
                append_chars(&mut out, &newline);
            } else if i == lines.len() - 1 {
                append_chars(&mut out, &lines[i]);
            } else {
                append_chars(&mut out, &spaces);
                append_chars(&mut out, &lines[i]);
                append_chars(&mut out, &newline);
            }
            assert(out@ =~= before + laid_out_line(all, i as int));
            assert(out@ + laid_out_from(all, i + 1) =~= before + laid_out_from(all, i as int));
            i += 1;
        }
        assert(out@ =~= laid_out_from(all, 0));
        trim(&out)
    }
}

} // verus!

//! The rewriter: arithmetic operators become checked primitives.

use vstd::prelude::*;
use vstd::string::*;
use crate::error::Error;
use crate::expr::{
    as_written, group_text, method_call_text, render, Expression, Site, Tree,
};
use crate::ops::{BinOp, UnOp};

verus! {

/// The offset just behind a binary operator in the text of its own node: the
/// left operand, one space, and the operator's token come before it.
pub open spec fn binary_op_ix(op: BinOp, left: Tree) -> nat {
    render(left).len() + 1 + op.token().len()
}

/// The rewritten tree. Each arithmetic binary operator and each negation is
/// replaced by its checked form, with the site of the operator in the text of
/// the node as it was before any rewriting. The operands of every operator,
/// the inside of parentheses, the callee of a call and the receiver of a
/// method call are rewritten in turn. Any other node stays as it is, the
/// arguments of calls among them.
pub open spec fn rewritten(tree: Tree) -> Tree
    decreases tree,
{
    match tree {
        Tree::Binary(op, left, right) => match op.primitive() {
            Some(primitive) => Tree::CheckedBinary(
                primitive,
                Box::new(rewritten(*left)),
                Box::new(rewritten(*right)),
                binary_op_ix(op, *left),
                op.token().len(),
            ),
            None => Tree::Binary(op, Box::new(rewritten(*left)), Box::new(rewritten(*right))),
        },
        Tree::Unary(op, operand) => if op == UnOp::Neg {
            Tree::CheckedUnary(Box::new(rewritten(*operand)), 0, 1)
        } else {
            Tree::Unary(op, Box::new(rewritten(*operand)))
        },
        Tree::Paren(inner) => Tree::Paren(Box::new(rewritten(*inner))),
        Tree::Call(callee, args) => Tree::Call(Box::new(rewritten(*callee)), args),
        Tree::MethodCall(receiver, method, args) => Tree::MethodCall(
            Box::new(rewritten(*receiver)),
            method,
            args,
        ),
        Tree::Leaf(_) => tree,
        Tree::Other(_) => tree,
        Tree::CheckedUnary(_, _, _) => tree,
        Tree::CheckedBinary(_, _, _, _, _) => tree,
    }
}

/// Rewrites an expression, and writes the canonical text that it had before.
fn rewrite_with_text(expr: Expression) -> (pair: (Expression, String))
    ensures
        pair.0@ == rewritten(expr@),
        pair.1@ == render(expr@),
    decreases expr,
{
    match expr {
        Expression::Binary(op, left, right) => {
            let (new_left, left_text) = rewrite_with_text(*left);
            let (new_right, right_text) = rewrite_with_text(*right);
            let token = op.token_str();
            let left_len: usize = left_text.as_str().unicode_len();
            let op_len: usize = token.unicode_len();
            let mut text = left_text;
            text.append(" ");
            text.append(token);
            text.append(" ");
            text.append(right_text.as_str());
            let total: usize = text.as_str().unicode_len();
            proof {
                reveal_strlit(" ");
                assert(total == left_len + 1 + op_len + 1 + right_text@.len());
            }
            match op.checked_primitive() {
                Some(primitive) => {
                    let site = Site { op_ix: left_len + 1 + op_len, op_len };
                    (
                        Expression::CheckedBinary(
                            primitive,
                            Box::new(new_left),
                            Box::new(new_right),
                            site,
                        ),
                        text,
                    )
                },
                None => (Expression::Binary(op, Box::new(new_left), Box::new(new_right)), text),
            }
        },
        Expression::Unary(op, operand) => {
            let (new_operand, operand_text) = rewrite_with_text(*operand);
            let mut text = String::from_str(op.token_str());
            text.append(" ");
            text.append(operand_text.as_str());
            match op {
                UnOp::Neg => (
                    Expression::CheckedUnary(Box::new(new_operand), Site { op_ix: 0, op_len: 1 }),
                    text,
                ),
                _ => (Expression::Unary(op, Box::new(new_operand)), text),
            }
        },
        Expression::Paren(inner) => {
            let (new_inner, inner_text) = rewrite_with_text(*inner);
            let text = group_text(inner_text.as_str());
            (Expression::Paren(Box::new(new_inner)), text)
        },
        Expression::Call(callee, args) => {
            let (new_callee, callee_text) = rewrite_with_text(*callee);
            let mut text = callee_text;
            text.append(" ");
            let group = group_text(args.as_str());
            text.append(group.as_str());
            (Expression::Call(Box::new(new_callee), args), text)
        },
        Expression::MethodCall(receiver, method, args) => {
            let (new_receiver, receiver_text) = rewrite_with_text(*receiver);
            let text = method_call_text(receiver_text, method.as_str(), args.as_str());
            (Expression::MethodCall(Box::new(new_receiver), method, args), text)
        },
        other => {
            let text = other.render();
            (other, text)
        },
    }
}

/// Rewrites an expression: every arithmetic operator that the rewriter
/// reaches becomes its checked primitive.
pub fn rewrite(expr: Expression) -> (out: Expression)
    ensures
        out@ == rewritten(expr@),
{
    rewrite_with_text(expr).0
}

/// Rewrites an expression and writes both texts: first that of the rewritten
/// expression, then the canonical text of the expression as it was given.
pub fn checked_inner(expression: Expression) -> (texts: (String, String))
    ensures
        texts.0@ == render(rewritten(expression@)),
        texts.1@ == render(expression@),
{
    let (result, original) = rewrite_with_text(expression);
    (result.render(), original)
}

/// Rewriting a rewritten tree changes nothing: no arithmetic operator is left
/// where the rewriter looks.
pub proof fn rewrite_is_idempotent(tree: Tree)
    ensures
        rewritten(rewritten(tree)) == rewritten(tree),
    decreases tree,
{
    match tree {
        Tree::Binary(_, left, right) => {
            rewrite_is_idempotent(*left);
            rewrite_is_idempotent(*right);
        },
        Tree::Unary(_, operand) => {
            rewrite_is_idempotent(*operand);
        },
        Tree::Paren(inner) => {
            rewrite_is_idempotent(*inner);
        },
        Tree::Call(callee, _) => {
            rewrite_is_idempotent(*callee);
        },
        Tree::MethodCall(receiver, _, _) => {
            rewrite_is_idempotent(*receiver);
        },
        _ => {},
    }
}

/// Whether every site in a tree is as the rewriter writes it: behind a
/// binary operator the offset is no less than the operator's length, and a
/// negation has the offset zero and the length one.
pub open spec fn sites_in_order(tree: Tree) -> bool
    decreases tree,
{
    match tree {
        Tree::Leaf(_) => true,
        Tree::Other(_) => true,
        Tree::Unary(_, operand) => sites_in_order(*operand),
        Tree::Binary(_, left, right) => sites_in_order(*left) && sites_in_order(*right),
        Tree::Paren(inner) => sites_in_order(*inner),
        Tree::Call(callee, _) => sites_in_order(*callee),
        Tree::MethodCall(receiver, _, _) => sites_in_order(*receiver),
        Tree::CheckedUnary(operand, op_ix, op_len) => op_ix == 0 && op_len == 1 && sites_in_order(
            *operand,
        ),
        Tree::CheckedBinary(_, left, right, op_ix, op_len) => op_ix >= op_len && sites_in_order(
            *left,
        ) && sites_in_order(*right),
    }
}

/// Rewriting keeps the sites in order, and every site in the rewritten form
/// of an expression as it was written is in order.
pub proof fn rewrite_keeps_sites_in_order(tree: Tree)
    requires
        sites_in_order(tree),
    ensures
        sites_in_order(rewritten(tree)),
    decreases tree,
{
    match tree {
        Tree::Binary(_, left, right) => {
            rewrite_keeps_sites_in_order(*left);
            rewrite_keeps_sites_in_order(*right);
        },
        Tree::Unary(_, operand) => {
            rewrite_keeps_sites_in_order(*operand);
        },
        Tree::Paren(inner) => {
            rewrite_keeps_sites_in_order(*inner);
        },
        Tree::Call(callee, _) => {
            rewrite_keeps_sites_in_order(*callee);
        },
        Tree::MethodCall(receiver, _, _) => {
            rewrite_keeps_sites_in_order(*receiver);
        },
        _ => {},
    }
}

/// An expression as it was written holds no site, so all its sites are in
/// order.
pub proof fn written_sites_are_in_order(tree: Tree)
    requires
        as_written(tree),
    ensures
        sites_in_order(tree),
    decreases tree,
{
    match tree {
        Tree::Binary(_, left, right) => {
            written_sites_are_in_order(*left);
            written_sites_are_in_order(*right);
        },
        Tree::Unary(_, operand) => {
            written_sites_are_in_order(*operand);
        },
        Tree::Paren(inner) => {
            written_sites_are_in_order(*inner);
        },
        Tree::Call(callee, _) => {
            written_sites_are_in_order(*callee);
        },
        Tree::MethodCall(receiver, _, _) => {
            written_sites_are_in_order(*receiver);
        },
        _ => {},
    }
}

/// A binary operator that has no checked primitive stays in place with its
/// operands rewritten, a unary operator other than negation likewise, and a
/// leaf and a node of any other kind stay as they are.
pub proof fn other_nodes_pass_through(tree: Tree)
    ensures
        tree matches Tree::Binary(op, left, right) ==> op.primitive() is None ==> rewritten(tree)
            == Tree::Binary(op, Box::new(rewritten(*left)), Box::new(rewritten(*right))),
        tree matches Tree::Unary(op, operand) ==> op != UnOp::Neg ==> rewritten(tree)
            == Tree::Unary(op, Box::new(rewritten(*operand))),
        tree is Leaf || tree is Other || tree is CheckedUnary || tree is CheckedBinary
            ==> rewritten(tree) == tree,
{
}

/// The site that a failure of the node itself reports, for a node in its
/// checked form.
pub open spec fn site_of(tree: Tree) -> Option<(nat, nat)> {
    match tree {
        Tree::CheckedUnary(_, op_ix, op_len) => Some((op_ix, op_len)),
        Tree::CheckedBinary(_, _, _, op_ix, op_len) => Some((op_ix, op_len)),
        _ => None,
    }
}

/// Whether an error is the one that a failure of the outermost operator of an
/// expression reports: it holds the text of the expression and the site that
/// the rewriter gave the operator.
pub open spec fn reports_outermost(error: Error, tree: Tree) -> bool {
    &&& error.expr@ == render(tree)
    &&& site_of(rewritten(tree)) == Some((error.__op_ix as nat, error.__op_len as nat))
}

/// Where the outermost operator of `left op right` is arithmetic and fails,
/// the message splits the text of the expression around that operator: the
/// left operand and a space before it, the operator's token between the
/// markers, a space and the right operand behind it.
pub proof fn binary_failure_marks_operator(error: Error, op: BinOp, left: Tree, right: Tree)
    requires
        op.primitive() is Some,
        reports_outermost(error, Tree::Binary(op, Box::new(left), Box::new(right))),
    ensures
        error.well_formed(),
        error.__op_ix >= error.__op_len,
        error.prefix() == render(left) + " "@,
        error.operator_text() == op.token(),
        error.suffix() == " "@ + render(right),
        error.prefix() + error.operator_text() + error.suffix() == render(
            Tree::Binary(op, Box::new(left), Box::new(right)),
        ),
{
    reveal_strlit(" ");
    let text = render(Tree::Binary(op, Box::new(left), Box::new(right)));
    assert(text == render(left) + " "@ + op.token() + " "@ + render(right));
    assert(error.prefix() =~= render(left) + " "@);
    assert(error.operator_text() =~= op.token());
    assert(error.suffix() =~= " "@ + render(right));
    assert(error.prefix() + error.operator_text() + error.suffix() =~= text);
}

/// Where the negation at the head of `- operand` fails, the reported offset
/// is zero and the marked operator is the first token of the text.
pub proof fn negation_failure_marks_first_token(error: Error, operand: Tree)
    requires
        reports_outermost(error, Tree::Unary(UnOp::Neg, Box::new(operand))),
    ensures
        error.__op_ix == 0,
        error.well_formed(),
        error.prefix() == Seq::<char>::empty(),
        error.operator_text() == UnOp::Neg.token(),
        error.suffix() == " "@ + render(operand),
{
    reveal_strlit(" ");
    reveal_strlit("-");
    let text = render(Tree::Unary(UnOp::Neg, Box::new(operand)));
    assert(text == UnOp::Neg.token() + " "@ + render(operand));
    assert(error.prefix() =~= Seq::<char>::empty());
    assert(error.operator_text() =~= UnOp::Neg.token());
    assert(error.suffix() =~= " "@ + render(operand));
}

} // verus!

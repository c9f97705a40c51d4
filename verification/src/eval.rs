//! What an expression computes: the ordinary value of an expression as it
//! was written, and the value or the failure of a rewritten one.

use vstd::prelude::*;
use crate::arith::Arithmetic;
use crate::error::Error;
use crate::expr::{as_written, render, Expression, Site, Tree};
use crate::ops::{BinOp, Primitive, UnOp};
use crate::rewrite::{binary_op_ix, rewritten};

verus! {

/// What computing a tree comes to.
pub enum Evaluation<T> {
    /// The value of the tree.
    Value(T),
    /// A checked primitive has failed: the offset and the length of its
    /// site.
    Failure(nat, nat),
    /// The tree has no value: a name without a binding, a node of a kind
    /// that is not computed here, or an ordinary operator whose checked
    /// primitive would fail.
    Undefined,
}

/// What computing an expression comes to.
#[derive(Debug, PartialEq, Eq)]
pub enum Outcome<T> {
    /// The value of the expression.
    Value(T),
    /// A checked primitive has failed, at the site.
    Failure(Site),
    /// The expression has no value.
    Undefined,
}

impl<T> View for Outcome<T> {
    type V = Evaluation<T>;

    open spec fn view(&self) -> Evaluation<T> {
        match *self {
            Outcome::Value(value) => Evaluation::Value(value),
            Outcome::Failure(site) => Evaluation::Failure(site.op_ix as nat, site.op_len as nat),
            Outcome::Undefined => Evaluation::Undefined,
        }
    }
}

/// The value that the first binding of a name gives it.
pub open spec fn bound<T>(bindings: Seq<(String, T)>, name: Seq<char>) -> Option<T>
    decreases bindings.len(),
{
    if bindings.len() == 0 {
        None
    } else if bindings[0].0@ == name {
        Some(bindings[0].1)
    } else {
        bound(bindings.drop_first(), name)
    }
}

/// A primitive on two computed operands, the left one first: what is not a
/// value is handed on, the left operand's before the right one's, and where
/// the primitive itself fails the result is `failed`.
pub open spec fn apply<T: Arithmetic>(
    primitive: Primitive,
    left: Evaluation<T>,
    right: Evaluation<T>,
    failed: Evaluation<T>,
) -> Evaluation<T> {
    match left {
        Evaluation::Value(a) => match right {
            Evaluation::Value(b) => match T::binary(primitive, a, b) {
                Some(value) => Evaluation::Value(value),
                None => failed,
            },
            other => other,
        },
        other => other,
    }
}

/// The negation of a computed operand; where the negation itself fails the
/// result is `failed`.
pub open spec fn negate<T: Arithmetic>(operand: Evaluation<T>, failed: Evaluation<T>) -> Evaluation<
    T,
> {
    match operand {
        Evaluation::Value(a) => match T::negation(a) {
            Some(value) => Evaluation::Value(value),
            None => failed,
        },
        other => other,
    }
}

/// What computing a tree comes to, with the names bound as given. A leaf has
/// the value bound to its text. An arithmetic operator as it was written has
/// its ordinary value, and none where it overflows; `^` is the power. A
/// checked node has the value of its primitive, or fails with its site. The
/// first failure, operands before operator and left before right, is that of
/// the whole tree.
pub open spec fn value<T: Arithmetic>(tree: Tree, bindings: Seq<(String, T)>) -> Evaluation<T>
    decreases tree,
{
    match tree {
        Tree::Leaf(name) => match bound(bindings, name) {
            Some(value) => Evaluation::Value(value),
            None => Evaluation::Undefined,
        },
        Tree::Paren(inner) => value(*inner, bindings),
        Tree::Unary(op, operand) => if op == UnOp::Neg {
            negate(value(*operand, bindings), Evaluation::Undefined)
        } else {
            Evaluation::Undefined
        },
        Tree::Binary(op, left, right) => match op.primitive() {
            Some(primitive) => apply(
                primitive,
                value(*left, bindings),
                value(*right, bindings),
                Evaluation::Undefined,
            ),
            None => Evaluation::Undefined,
        },
        Tree::CheckedUnary(operand, op_ix, op_len) => negate(
            value(*operand, bindings),
            Evaluation::Failure(op_ix, op_len),
        ),
        Tree::CheckedBinary(primitive, left, right, op_ix, op_len) => apply(
            primitive,
            value(*left, bindings),
            value(*right, bindings),
            Evaluation::Failure(op_ix, op_len),
        ),
        Tree::Call(_, _) => Evaluation::Undefined,
        Tree::MethodCall(_, _, _) => Evaluation::Undefined,
        Tree::Other(_) => Evaluation::Undefined,
    }
}

/// Finds the value that the first binding of a name gives it.
pub fn lookup<T: Copy>(bindings: &Vec<(String, T)>, name: &String) -> (found: Option<T>)
    ensures
        found == bound(bindings@, name@),
{
    let mut i: usize = 0;
    assert(bindings@.subrange(0, bindings@.len() as int) =~= bindings@);
    while i < bindings.len()
        invariant
            i <= bindings.len(),
            bound(bindings@, name@) == bound(
                bindings@.subrange(i as int, bindings@.len() as int),
                name@,
            ),
        decreases bindings.len() - i,
    {
        let ghost rest = bindings@.subrange(i as int, bindings@.len() as int);
        assert(rest[0] == bindings@[i as int]);
        assert(rest.drop_first() =~= bindings@.subrange(i + 1, bindings@.len() as int));
        if bindings[i].0 == *name {
            return Some(bindings[i].1);
        }
        i = i + 1;
    }
    None
}

/// Applies a primitive to two operands; where it fails the outcome is
/// `failed`.
fn apply_to<T: Arithmetic>(primitive: Primitive, a: T, b: T, failed: Outcome<T>) -> (out: Outcome<
    T,
>)
    ensures
        out@ == apply(primitive, Evaluation::Value(a), Evaluation::Value(b), failed@),
{
    match T::checked_binary(primitive, a, b) {
        Some(value) => Outcome::Value(value),
        None => failed,
    }
}

/// Negates an operand; where that fails the outcome is `failed`.
fn negate_to<T: Arithmetic>(a: T, failed: Outcome<T>) -> (out: Outcome<T>)
    ensures
        out@ == negate(Evaluation::Value(a), failed@),
{
    match T::checked_negation(a) {
        Some(value) => Outcome::Value(value),
        None => failed,
    }
}

/// Computes an expression with the names bound as given.
pub fn evaluate<T: Arithmetic>(expr: &Expression, bindings: &Vec<(String, T)>) -> (out: Outcome<T>)
    ensures
        out@ == value(expr@, bindings@),
    decreases expr,
{
    match expr {
        Expression::Leaf(name) => match lookup(bindings, name) {
            Some(value) => Outcome::Value(value),
            None => Outcome::Undefined,
        },
        Expression::Paren(inner) => evaluate(inner, bindings),
        Expression::Unary(op, operand) => match op {
            UnOp::Neg => match evaluate(operand, bindings) {
                Outcome::Value(a) => negate_to(a, Outcome::Undefined),
                other => other,
            },
            _ => Outcome::Undefined,
        },
        Expression::Binary(op, left, right) => match op.checked_primitive() {
            Some(primitive) => match evaluate(left, bindings) {
                Outcome::Value(a) => match evaluate(right, bindings) {
                    Outcome::Value(b) => apply_to(primitive, a, b, Outcome::Undefined),
                    other => other,
                },
                other => other,
            },
            None => Outcome::Undefined,
        },
        Expression::CheckedUnary(operand, site) => match evaluate(operand, bindings) {
            Outcome::Value(a) => negate_to(a, Outcome::Failure(*site)),
            other => other,
        },
        Expression::CheckedBinary(primitive, left, right, site) => match evaluate(left, bindings) {
            Outcome::Value(a) => match evaluate(right, bindings) {
                Outcome::Value(b) => apply_to(*primitive, a, b, Outcome::Failure(*site)),
                other => other,
            },
            other => other,
        },
        _ => Outcome::Undefined,
    }
}

/// Runs a rewritten expression as the generated code does: the value where
/// every checked primitive succeeds, else the error of the first one that
/// fails, which holds `original`, the text of the whole expression. `None`
/// where the expression has no value.
pub fn run<T: Arithmetic>(expr: &Expression, original: &'static str, bindings: &Vec<(String, T)>) -> (out:
    Option<Result<T, Error>>)
    ensures
        match value(expr@, bindings@) {
            Evaluation::Value(value) => out == Some(Ok::<T, Error>(value)),
            Evaluation::Failure(op_ix, op_len) => out matches Some(Err(error)) && error.expr
                == original && error.__op_ix == op_ix && error.__op_len == op_len,
            Evaluation::Undefined => out is None,
        },
{
    match evaluate(expr, bindings) {
        Outcome::Value(value) => Some(Ok(value)),
        Outcome::Failure(site) => Some(
            Err(Error { expr: original, __op_ix: site.op_ix, __op_len: site.op_len }),
        ),
        Outcome::Undefined => None,
    }
}

/// Where an expression has an ordinary value, the rewritten expression
/// yields that value: no checked primitive in it fails.
pub proof fn rewritten_keeps_value<T: Arithmetic>(tree: Tree, bindings: Seq<(String, T)>)
    requires
        value(tree, bindings) is Value,
    ensures
        value(rewritten(tree), bindings) == value(tree, bindings),
    decreases tree,
{
    match tree {
        Tree::Paren(inner) => {
            rewritten_keeps_value(*inner, bindings);
        },
        Tree::Unary(_, operand) => {
            rewritten_keeps_value(*operand, bindings);
        },
        Tree::Binary(_, left, right) => {
            rewritten_keeps_value(*left, bindings);
            rewritten_keeps_value(*right, bindings);
        },
        _ => {},
    }
}

/// Where the rewritten form of an expression as it was written yields a
/// value, that value is the ordinary value of the expression.
pub proof fn rewritten_value_is_ordinary<T: Arithmetic>(tree: Tree, bindings: Seq<(String, T)>)
    requires
        as_written(tree),
        value(rewritten(tree), bindings) is Value,
    ensures
        value(tree, bindings) == value(rewritten(tree), bindings),
    decreases tree,
{
    match tree {
        Tree::Paren(inner) => {
            rewritten_value_is_ordinary(*inner, bindings);
        },
        Tree::Unary(_, operand) => {
            rewritten_value_is_ordinary(*operand, bindings);
        },
        Tree::Binary(_, left, right) => {
            rewritten_value_is_ordinary(*left, bindings);
            rewritten_value_is_ordinary(*right, bindings);
        },
        _ => {},
    }
}

/// Where both operands of an arithmetic operator have a value and the
/// operator's primitive fails on them, the rewritten expression fails with
/// the site of that operator: the offset behind its token in the text of
/// `left op right`, and the length of its token.
pub proof fn failing_operator_is_reported<T: Arithmetic>(
    op: BinOp,
    left: Tree,
    right: Tree,
    bindings: Seq<(String, T)>,
)
    requires
        op.primitive() is Some,
        value(rewritten(left), bindings) is Value,
        value(rewritten(right), bindings) is Value,
        T::binary(
            op.primitive()->Some_0,
            value(rewritten(left), bindings)->Value_0,
            value(rewritten(right), bindings)->Value_0,
        ) is None,
    ensures
        value(rewritten(Tree::Binary(op, Box::new(left), Box::new(right))), bindings)
            == Evaluation::<T>::Failure(binary_op_ix(op, left), op.token().len()),
{
}

/// Where the operand of a negation has a value and the checked negation
/// fails on it, the rewritten expression fails with the offset zero and the
/// length one.
pub proof fn failing_negation_is_reported<T: Arithmetic>(
    operand: Tree,
    bindings: Seq<(String, T)>,
)
    requires
        value(rewritten(operand), bindings) is Value,
        T::negation(value(rewritten(operand), bindings)->Value_0) is None,
    ensures
        value(rewritten(Tree::Unary(UnOp::Neg, Box::new(operand))), bindings)
            == Evaluation::<T>::Failure(0, 1),
{
}

/// Whether an operator of the given site lies within a text of `len`
/// characters.
pub open spec fn site_fits(op_ix: nat, op_len: nat, len: nat) -> bool {
    if op_ix >= op_len {
        op_ix <= len
    } else {
        op_len <= len
    }
}

/// Whether the operator of every site in a tree lies within a text of `len`
/// characters.
pub open spec fn sites_fit(tree: Tree, len: nat) -> bool
    decreases tree,
{
    match tree {
        Tree::Leaf(_) => true,
        Tree::Other(_) => true,
        Tree::Unary(_, operand) => sites_fit(*operand, len),
        Tree::Binary(_, left, right) => sites_fit(*left, len) && sites_fit(*right, len),
        Tree::Paren(inner) => sites_fit(*inner, len),
        Tree::Call(callee, _) => sites_fit(*callee, len),
        Tree::MethodCall(receiver, _, _) => sites_fit(*receiver, len),
        Tree::CheckedUnary(operand, op_ix, op_len) => site_fits(op_ix, op_len, len) && sites_fit(
            *operand,
            len,
        ),
        Tree::CheckedBinary(_, left, right, op_ix, op_len) => site_fits(op_ix, op_len, len)
            && sites_fit(*left, len) && sites_fit(*right, len),
    }
}

/// Sites that lie within a text lie within any text that is no shorter.
pub proof fn sites_fit_longer_text(tree: Tree, len: nat, longer: nat)
    requires
        sites_fit(tree, len),
        len <= longer,
    ensures
        sites_fit(tree, longer),
    decreases tree,
{
    match tree {
        Tree::Unary(_, operand) => {
            sites_fit_longer_text(*operand, len, longer);
        },
        Tree::Binary(_, left, right) => {
            sites_fit_longer_text(*left, len, longer);
            sites_fit_longer_text(*right, len, longer);
        },
        Tree::Paren(inner) => {
            sites_fit_longer_text(*inner, len, longer);
        },
        Tree::Call(callee, _) => {
            sites_fit_longer_text(*callee, len, longer);
        },
        Tree::MethodCall(receiver, _, _) => {
            sites_fit_longer_text(*receiver, len, longer);
        },
        Tree::CheckedUnary(operand, _, _) => {
            sites_fit_longer_text(*operand, len, longer);
        },
        Tree::CheckedBinary(_, left, right, _, _) => {
            sites_fit_longer_text(*left, len, longer);
            sites_fit_longer_text(*right, len, longer);
        },
        _ => {},
    }
}

/// Every site that the rewriter writes into an expression as it was written
/// lies within the canonical text of that expression.
pub proof fn rewritten_sites_fit(tree: Tree)
    requires
        as_written(tree),
    ensures
        sites_fit(rewritten(tree), render(tree).len()),
    decreases tree,
{
    reveal_strlit(" ");
    reveal_strlit("-");
    let len = render(tree).len();
    match tree {
        Tree::Unary(_, operand) => {
            rewritten_sites_fit(*operand);
            sites_fit_longer_text(rewritten(*operand), render(*operand).len(), len);
        },
        Tree::Binary(_, left, right) => {
            rewritten_sites_fit(*left);
            rewritten_sites_fit(*right);
            sites_fit_longer_text(rewritten(*left), render(*left).len(), len);
            sites_fit_longer_text(rewritten(*right), render(*right).len(), len);
        },
        Tree::Paren(inner) => {
            rewritten_sites_fit(*inner);
            sites_fit_longer_text(rewritten(*inner), render(*inner).len(), len);
        },
        Tree::Call(callee, _) => {
            rewritten_sites_fit(*callee);
            sites_fit_longer_text(rewritten(*callee), render(*callee).len(), len);
        },
        Tree::MethodCall(receiver, _, _) => {
            rewritten_sites_fit(*receiver);
            sites_fit_longer_text(rewritten(*receiver), render(*receiver).len(), len);
        },
        _ => {},
    }
}

/// A failure of a tree reports one of the tree's sites.
pub proof fn failure_is_a_site<T: Arithmetic>(tree: Tree, bindings: Seq<(String, T)>, len: nat)
    requires
        sites_fit(tree, len),
        value(tree, bindings) is Failure,
    ensures
        value(tree, bindings) matches Evaluation::Failure(op_ix, op_len) && site_fits(
            op_ix,
            op_len,
            len,
        ),
    decreases tree,
{
    match tree {
        Tree::Paren(inner) => {
            failure_is_a_site(*inner, bindings, len);
        },
        Tree::Unary(_, operand) => {
            failure_is_a_site(*operand, bindings, len);
        },
        Tree::Binary(_, left, right) => {
            if value(*left, bindings) is Failure {
                failure_is_a_site(*left, bindings, len);
            } else {
                failure_is_a_site(*right, bindings, len);
            }
        },
        Tree::CheckedUnary(operand, _, _) => {
            if value(*operand, bindings) is Failure {
                failure_is_a_site(*operand, bindings, len);
            }
        },
        Tree::CheckedBinary(_, left, right, _, _) => {
            if value(*left, bindings) is Failure {
                failure_is_a_site(*left, bindings, len);
            } else if value(*right, bindings) is Failure {
                failure_is_a_site(*right, bindings, len);
            }
        },
        _ => {},
    }
}

/// The message of every failure can be written: where the rewritten form of
/// an expression as it was written fails, the operator of the error lies
/// within the canonical text of the expression.
pub proof fn failure_has_a_message<T: Arithmetic>(
    tree: Tree,
    bindings: Seq<(String, T)>,
    error: Error,
)
    requires
        as_written(tree),
        error.expr@ == render(tree),
        value(rewritten(tree), bindings) == Evaluation::<T>::Failure(
            error.__op_ix as nat,
            error.__op_len as nat,
        ),
    ensures
        error.well_formed(),
{
    rewritten_sites_fit(tree);
    failure_is_a_site(rewritten(tree), bindings, render(tree).len());
}

} // verus!

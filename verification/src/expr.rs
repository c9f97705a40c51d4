//! The expression tree and its canonical text.

use vstd::prelude::*;
use vstd::string::*;
use crate::decimal::{decimal, decimal_string};
use crate::ops::{BinOp, Primitive, UnOp};

verus! {

/// Where a replaced operator stands in the text of an expression.
#[derive(Clone, Copy, Debug, PartialEq, Eq, Structural)]
pub struct Site {
    /// The offset just behind the operator's token.
    pub op_ix: usize,
    /// The number of characters of the operator's token.
    pub op_len: usize,
}

/// An expression.
#[derive(Debug, PartialEq, Eq)]
pub enum Expression {
    /// A literal or a path, by its text.
    Leaf(String),
    /// An operator applied to one operand.
    Unary(UnOp, Box<Expression>),
    /// An operator applied to a left and a right operand.
    Binary(BinOp, Box<Expression>, Box<Expression>),
    /// An expression in parentheses.
    Paren(Box<Expression>),
    /// A call: the callee, and the text of the arguments.
    Call(Box<Expression>, String),
    /// A method call: the receiver, the method's name, and the text of the
    /// arguments.
    MethodCall(Box<Expression>, String, String),
    /// Any other expression, by its text.
    Other(String),
    /// A checked negation of the operand, which on failure ends the whole
    /// computation with the site.
    CheckedUnary(Box<Expression>, Site),
    /// A checked primitive applied to a left and a right operand, which on
    /// failure ends the whole computation with the site.
    CheckedBinary(Primitive, Box<Expression>, Box<Expression>, Site),
}

/// What an expression is: the tree of its nodes, with each text as a
/// sequence of characters and each site as its offset and its length.
pub enum Tree {
    Leaf(Seq<char>),
    Unary(UnOp, Box<Tree>),
    Binary(BinOp, Box<Tree>, Box<Tree>),
    Paren(Box<Tree>),
    Call(Box<Tree>, Seq<char>),
    MethodCall(Box<Tree>, Seq<char>, Seq<char>),
    Other(Seq<char>),
    CheckedUnary(Box<Tree>, nat, nat),
    CheckedBinary(Primitive, Box<Tree>, Box<Tree>, nat, nat),
}

impl View for Expression {
    type V = Tree;

    open spec fn view(&self) -> Tree
        decreases self,
    {
        match *self {
            Expression::Leaf(text) => Tree::Leaf(text@),
            Expression::Unary(op, operand) => Tree::Unary(op, Box::new((*operand).view())),
            Expression::Binary(op, left, right) => Tree::Binary(
                op,
                Box::new((*left).view()),
                Box::new((*right).view()),
            ),
            Expression::Paren(inner) => Tree::Paren(Box::new((*inner).view())),
            Expression::Call(callee, args) => Tree::Call(Box::new((*callee).view()), args@),
            Expression::MethodCall(receiver, method, args) => Tree::MethodCall(
                Box::new((*receiver).view()),
                method@,
                args@,
            ),
            Expression::Other(text) => Tree::Other(text@),
            Expression::CheckedUnary(operand, site) => Tree::CheckedUnary(
                Box::new((*operand).view()),
                site.op_ix as nat,
                site.op_len as nat,
            ),
            Expression::CheckedBinary(primitive, left, right, site) => Tree::CheckedBinary(
                primitive,
                Box::new((*left).view()),
                Box::new((*right).view()),
                site.op_ix as nat,
                site.op_len as nat,
            ),
        }
    }
}

/// Whether a tree is an expression as it was written: no node of it is in
/// checked form.
pub open spec fn as_written(tree: Tree) -> bool
    decreases tree,
{
    match tree {
        Tree::Leaf(_) => true,
        Tree::Other(_) => true,
        Tree::Unary(_, operand) => as_written(*operand),
        Tree::Binary(_, left, right) => as_written(*left) && as_written(*right),
        Tree::Paren(inner) => as_written(*inner),
        Tree::Call(callee, _) => as_written(*callee),
        Tree::MethodCall(receiver, _, _) => as_written(*receiver),
        Tree::CheckedUnary(_, _, _) => false,
        Tree::CheckedBinary(_, _, _, _, _) => false,
    }
}

/// A text in parentheses.
pub open spec fn group(inner: Seq<char>) -> Seq<char> {
    "("@ + inner + ")"@
}

/// A method call on a receiver: the receiver, the method's name and the
/// argument list.
pub open spec fn method_call(receiver: Seq<char>, method: Seq<char>, args: Seq<char>) -> Seq<
    char,
> {
    receiver + " . "@ + method + " "@ + group(args)
}

/// A call of a checked primitive that, where the primitive fails, ends the
/// whole computation with the site of the operator.
pub open spec fn guarded(call: Seq<char>, op_ix: nat, op_len: nat) -> Seq<char> {
    call + " . ok_or (Err { expr : ORIGINAL_EXPR , __op_ix : "@ + decimal(op_ix)
        + "usize , __op_len : "@ + decimal(op_len) + "usize }) ?"@
}

/// Whether a method can be called on the tree's text as it stands. The text
/// of any other tree is put in parentheses first.
pub open spec fn binds_tightly(tree: Tree) -> bool {
    match tree {
        Tree::Unary(_, _) => false,
        Tree::Binary(_, _, _) => false,
        Tree::Other(_) => false,
        _ => true,
    }
}

/// The canonical text of a tree: its tokens with one space between them, and
/// each pair of parentheses close around what it holds. A node in checked
/// form is written as the call of its primitive.
pub open spec fn render(tree: Tree) -> Seq<char>
    decreases tree, 0nat,
{
    match tree {
        Tree::Leaf(text) => text,
        Tree::Unary(op, operand) => op.token() + " "@ + render(*operand),
        Tree::Binary(op, left, right) => render(*left) + " "@ + op.token() + " "@ + render(*right),
        Tree::Paren(inner) => group(render(*inner)),
        Tree::Call(callee, args) => render(*callee) + " "@ + group(args),
        Tree::MethodCall(receiver, method, args) => method_call(render(*receiver), method, args),
        Tree::Other(text) => text,
        Tree::CheckedUnary(operand, op_ix, op_len) => guarded(
            method_call(receiver(*operand), "checked_neg"@, Seq::empty()),
            op_ix,
            op_len,
        ),
        Tree::CheckedBinary(primitive, left, right, op_ix, op_len) => guarded(
            method_call(receiver(*left), primitive.method(), render(*right)),
            op_ix,
            op_len,
        ),
    }
}

/// The text of a tree where a method is called on it.
pub open spec fn receiver(tree: Tree) -> Seq<char>
    decreases tree, 1nat,
{
    if binds_tightly(tree) {
        render(tree)
    } else {
        group(render(tree))
    }
}

/// Writes a text in parentheses.
pub(crate) fn group_text(inner: &str) -> (text: String)
    ensures
        text@ == group(inner@),
{
    let mut text = String::from_str("(");
    text.append(inner);
    text.append(")");
    text
}

/// Writes a method call on a receiver.
pub(crate) fn method_call_text(receiver: String, method: &str, args: &str) -> (text: String)
    ensures
        text@ == method_call(receiver@, method@, args@),
{
    let mut text = receiver;
    text.append(" . ");
    text.append(method);
    text.append(" ");
    let group = group_text(args);
    text.append(group.as_str());
    text
}

/// Writes the call of a checked primitive with what it does on failure.
fn guarded_text(call: String, site: Site) -> (text: String)
    ensures
        text@ == guarded(call@, site.op_ix as nat, site.op_len as nat),
{
    let mut text = call;
    text.append(" . ok_or (Err { expr : ORIGINAL_EXPR , __op_ix : ");
    let op_ix = decimal_string(site.op_ix);
    text.append(op_ix.as_str());
    text.append("usize , __op_len : ");
    let op_len = decimal_string(site.op_len);
    text.append(op_len.as_str());
    text.append("usize }) ?");
    text
}

impl Expression {
    /// Whether a method can be called on the expression's text as it stands.
    pub fn binds_tightly(&self) -> (tight: bool)
        ensures
            tight == binds_tightly(self@),
    {
        match self {
            Expression::Unary(_, _) => false,
            Expression::Binary(_, _, _) => false,
            Expression::Other(_) => false,
            _ => true,
        }
    }

    /// Writes the canonical text of the expression.
    pub fn render(&self) -> (text: String)
        ensures
            text@ == render(self@),
        decreases self, 0nat,
    {
        match self {
            Expression::Leaf(text) => text.clone(),
            Expression::Unary(op, operand) => {
                let mut text = String::from_str(op.token_str());
                text.append(" ");
                let inner = operand.render();
                text.append(inner.as_str());
                text
            },
            Expression::Binary(op, left, right) => {
                let mut text = left.render();
                text.append(" ");
                text.append(op.token_str());
                text.append(" ");
                let rest = right.render();
                text.append(rest.as_str());
                text
            },
            Expression::Paren(inner) => {
                let inside = inner.render();
                group_text(inside.as_str())
            },
            Expression::Call(callee, args) => {
                let mut text = callee.render();
                text.append(" ");
                let group = group_text(args.as_str());
                text.append(group.as_str());
                text
            },
            Expression::MethodCall(receiver, method, args) => method_call_text(
                receiver.render(),
                method.as_str(),
                args.as_str(),
            ),
            Expression::Other(text) => text.clone(),
            Expression::CheckedUnary(operand, site) => {
                proof {
                    reveal_strlit("");
                    assert(""@ =~= Seq::<char>::empty());
                }
                guarded_text(method_call_text(operand.receiver(), "checked_neg", ""), *site)
            },
            Expression::CheckedBinary(primitive, left, right, site) => {
                let args = right.render();
                guarded_text(
                    method_call_text(left.receiver(), primitive.method_str(), args.as_str()),
                    *site,
                )
            },
        }
    }

    /// Writes the text of the expression where a method is called on it.
    pub fn receiver(&self) -> (text: String)
        ensures
            text@ == receiver(self@),
        decreases self, 1nat,
    {
        if self.binds_tightly() {
            self.render()
        } else {
            let inside = self.render();
            group_text(inside.as_str())
        }
    }
}

} // verus!

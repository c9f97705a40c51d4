//! From source text to an expression tree. The parser is `syn`: it names the
//! outermost node of a text and prints its parts, and the tree is put
//! together here, each operand parsed in turn from its own text.

use vstd::prelude::*;
use vstd::string::*;
use quote::ToTokens;
use syn::Expr as Syntax;
use crate::expr::{as_written, Expression, Tree};
use crate::ops::{BinOp, UnOp};

verus! {

/// The kind of the outermost node of a parsed expression, with the parts
/// that are held as text.
#[derive(Debug, PartialEq, Eq)]
pub enum Shape {
    /// A literal or a path.
    Leaf,
    /// A unary operator, by its token.
    Unary(String),
    /// A binary operator, by its token.
    Binary(String),
    /// Parentheses.
    Paren,
    /// A call, with the text of the arguments.
    Call(String),
    /// A method call: the method's name, its generic arguments (empty where
    /// it has none) and the text of the arguments.
    MethodCall(String, String, String),
    /// Any other expression.
    Other,
}

/// What a shape is: its kind, with each text as a sequence of characters.
pub enum ShapeText {
    Leaf,
    Unary(Seq<char>),
    Binary(Seq<char>),
    Paren,
    Call(Seq<char>),
    MethodCall(Seq<char>, Seq<char>, Seq<char>),
    Other,
}

impl View for Shape {
    type V = ShapeText;

    open spec fn view(&self) -> ShapeText {
        match *self {
            Shape::Leaf => ShapeText::Leaf,
            Shape::Unary(token) => ShapeText::Unary(token@),
            Shape::Binary(token) => ShapeText::Binary(token@),
            Shape::Paren => ShapeText::Paren,
            Shape::Call(args) => ShapeText::Call(args@),
            Shape::MethodCall(method, generics, args) => ShapeText::MethodCall(
                method@,
                generics@,
                args@,
            ),
            Shape::Other => ShapeText::Other,
        }
    }
}

/// The characters of each text of a list.
pub open spec fn texts_of(list: Seq<String>) -> Seq<Seq<char>> {
    Seq::new(list.len(), |i: int| list[i]@)
}

/// What `syn` finds in a text: `None` where the text is no expression, else
/// the canonical text of the expression and the shape of its outermost node.
pub uninterp spec fn outermost_node(source: Seq<char>) -> Option<(Seq<char>, ShapeText)>;

/// The canonical texts of the operands that `syn` finds at the outermost node
/// of a text: left and right of a binary operator, the operand of a unary
/// one, the inside of parentheses, the callee of a call, the receiver of a
/// method call. Empty for any other node, and where the text is no
/// expression.
pub uninterp spec fn operand_texts(source: Seq<char>) -> Seq<Seq<char>>;

/// `syn::parse_str::<syn::Expr>` on the text, then
/// `to_token_stream().to_string()` on the expression, and on the operator,
/// the method's name, its generic arguments and the argument list of its
/// outermost node, one arm for each kind that the tree tells apart. `None`
/// where the parser refuses the text. `proc_macro2::fallback::force()` comes
/// first, so that the crate's own lexer and printer are at work in every
/// process: what comes back then depends on the text alone.
#[verifier::external_body]
fn outermost(source: &str) -> (found: Option<(String, Shape)>)
    ensures
        match found {
            Some((whole, shape)) => outermost_node(source@) == Some((whole@, shape@)),
            None => outermost_node(source@) is None,
        },
{
    proc_macro2::fallback::force();
    let expr = syn::parse_str::<Syntax>(source).ok()?;
    let text = |part: &dyn ToTokens| part.to_token_stream().to_string();
    let shape = match &expr {
        Syntax::Binary(e) => Shape::Binary(text(&e.op)),
        Syntax::Unary(e) => Shape::Unary(text(&e.op)),
        Syntax::Paren(_) => Shape::Paren,
        Syntax::Call(e) => Shape::Call(text(&e.args)),
        Syntax::MethodCall(e) => Shape::MethodCall(text(&e.method), text(&e.turbofish), text(&e.args)),
        Syntax::Lit(_) | Syntax::Path(_) => Shape::Leaf,
        _ => Shape::Other,
    };
    Some((text(&expr), shape))
}

/// `syn::parse_str::<syn::Expr>` on the text, then
/// `to_token_stream().to_string()` on each operand of the outermost node, one
/// arm for each kind that has operands. `proc_macro2::fallback::force()`
/// comes first, as above: what comes back depends on the text alone.
#[verifier::external_body]
fn operands(source: &str) -> (texts: Vec<String>)
    ensures
        texts_of(texts@) == operand_texts(source@),
{
    proc_macro2::fallback::force();
    let text = |part: &Syntax| part.to_token_stream().to_string();
    match syn::parse_str::<Syntax>(source) {
        Ok(Syntax::Binary(e)) => vec![text(&e.left), text(&e.right)],
        Ok(Syntax::Unary(e)) => vec![text(&e.expr)],
        Ok(Syntax::Paren(e)) => vec![text(&e.expr)],
        Ok(Syntax::Call(e)) => vec![text(&e.func)],
        Ok(Syntax::MethodCall(e)) => vec![text(&e.receiver)],
        _ => Vec::new(),
    }
}

/// The name of a method with its generic arguments: the name alone where it
/// has none, else the name, a space and the arguments.
pub open spec fn method_with_generics(method: Seq<char>, generics: Seq<char>) -> Seq<char> {
    if generics.len() == 0 {
        method
    } else {
        method + " "@ + generics
    }
}

/// Writes the name of a method with its generic arguments.
pub fn method_text(method: String, generics: &str) -> (text: String)
    ensures
        text@ == method_with_generics(method@, generics@),
{
    if generics.unicode_len() == 0 {
        method
    } else {
        let mut text = method;
        text.append(" ");
        text.append(generics);
        text
    }
}

/// The node of a unary operator: the operator that the token stands for on
/// the operand; where the token stands for none, the whole by its text.
pub open spec fn unary_tree(whole: Seq<char>, token: Seq<char>, operand: Tree) -> Tree {
    match UnOp::with_token(token) {
        Some(op) => Tree::Unary(op, Box::new(operand)),
        None => Tree::Other(whole),
    }
}

/// The node of a binary operator: the operator that the token stands for on
/// the two operands; where the token stands for none, the whole by its text.
pub open spec fn binary_tree(whole: Seq<char>, left: Tree, token: Seq<char>, right: Tree) -> Tree {
    match BinOp::with_token(token) {
        Some(op) => Tree::Binary(op, Box::new(left), Box::new(right)),
        None => Tree::Other(whole),
    }
}

/// Builds the node of a unary operator from its token and its operand.
pub fn unary_node(whole: String, token: &str, operand: Expression) -> (node: Expression)
    ensures
        node@ == unary_tree(whole@, token@, operand@),
{
    match UnOp::from_token(token) {
        Some(op) => Expression::Unary(op, Box::new(operand)),
        None => Expression::Other(whole),
    }
}

/// Builds the node of a binary operator from its token and its operands.
pub fn binary_node(whole: String, left: Expression, token: &str, right: Expression) -> (node:
    Expression)
    ensures
        node@ == binary_tree(whole@, left@, token@, right@),
{
    match BinOp::from_token(token) {
        Some(op) => Expression::Binary(op, Box::new(left), Box::new(right)),
        None => Expression::Other(whole),
    }
}

/// Builds the node of a method call from the receiver, the method's name,
/// its generic arguments and the text of the arguments.
pub fn method_call_node(receiver: Expression, method: String, generics: &str, args: String) -> (node:
    Expression)
    ensures
        node@ == Tree::MethodCall(
            Box::new(receiver@),
            method_with_generics(method@, generics@),
            args@,
        ),
{
    Expression::MethodCall(Box::new(receiver), method_text(method, generics), args)
}

/// The tree of the operand at `index`: the tree that its text parses to;
/// the text itself as a node that is not looked into, where the parser
/// refuses it; and an empty such node where there is no operand at `index`.
pub open spec fn operand_tree(texts: Seq<Seq<char>>, index: int, limit: nat) -> Tree
    decreases limit, 1nat,
{
    if 0 <= index < texts.len() {
        match parsed_within(texts[index], limit) {
            Some(tree) => tree,
            None => Tree::Other(texts[index]),
        }
    } else {
        Tree::Other(Seq::empty())
    }
}

/// The tree that a text parses to, as far as canonical texts are shorter
/// than `limit`. `None` where the text is no expression. A node whose
/// canonical text is not shorter than `limit` is held by that text and not
/// looked into. Of any other node: a literal or a path is a leaf. An
/// operator node holds the operator that its token stands for on the trees
/// of its operands. Parentheses, a call and a method call hold the tree of
/// what is inside, of the callee and of the receiver. An expression of any
/// other kind is held by its text. Each operand is parsed from its own
/// canonical text, within the length of the text of the node that holds it.
pub open spec fn parsed_within(source: Seq<char>, limit: nat) -> Option<Tree>
    decreases limit, 0nat,
{
    match outermost_node(source) {
        None => None,
        Some((whole, shape)) => {
            let len = whole.len();
            let texts = operand_texts(source);
            if len >= limit {
                Some(Tree::Other(whole))
            } else {
                Some(
                    match shape {
                        ShapeText::Leaf => Tree::Leaf(whole),
                        ShapeText::Other => Tree::Other(whole),
                        ShapeText::Unary(token) => unary_tree(
                            whole,
                            token,
                            operand_tree(texts, 0, len),
                        ),
                        ShapeText::Binary(token) => binary_tree(
                            whole,
                            operand_tree(texts, 0, len),
                            token,
                            operand_tree(texts, 1, len),
                        ),
                        ShapeText::Paren => Tree::Paren(Box::new(operand_tree(texts, 0, len))),
                        ShapeText::Call(args) => Tree::Call(
                            Box::new(operand_tree(texts, 0, len)),
                            args,
                        ),
                        ShapeText::MethodCall(method, generics, args) => Tree::MethodCall(
                            Box::new(operand_tree(texts, 0, len)),
                            method_with_generics(method, generics),
                            args,
                        ),
                    },
                )
            }
        },
    }
}

/// The tree that a text parses to: `parsed_within` any length that a text
/// can have.
pub open spec fn parsed(source: Seq<char>) -> Option<Tree> {
    parsed_within(source, usize::MAX as nat)
}

/// Builds the tree of the operand at `index`.
fn operand(texts: &Vec<String>, index: usize, limit: usize) -> (expr: Expression)
    ensures
        expr@ == operand_tree(texts_of(texts@), index as int, limit as nat),
        as_written(expr@),
    decreases limit, 1nat,
{
    if index < texts.len() {
        match tree_of(texts[index].as_str(), limit) {
            Some(expr) => expr,
            None => Expression::Other(texts[index].clone()),
        }
    } else {
        Expression::Other(String::new())
    }
}

/// Builds the tree that a text parses to, as far as canonical texts are
/// shorter than `limit`.
fn tree_of(source: &str, limit: usize) -> (tree: Option<Expression>)
    ensures
        match tree {
            Some(expr) => parsed_within(source@, limit as nat) == Some(expr@),
            None => parsed_within(source@, limit as nat) is None,
        },
        tree matches Some(expr) ==> as_written(expr@),
    decreases limit, 0nat,
{
    match outermost(source) {
        None => None,
        Some((whole, shape)) => {
            let len: usize = whole.as_str().unicode_len();
            if len >= limit {
                return Some(Expression::Other(whole));
            }
            let texts = operands(source);
            let expr = match shape {
                Shape::Leaf => Expression::Leaf(whole),
                Shape::Other => Expression::Other(whole),
                Shape::Unary(token) => unary_node(whole, token.as_str(), operand(&texts, 0, len)),
                Shape::Binary(token) => {
                    let left = operand(&texts, 0, len);
                    let right = operand(&texts, 1, len);
                    binary_node(whole, left, token.as_str(), right)
                },
                Shape::Paren => Expression::Paren(Box::new(operand(&texts, 0, len))),
                Shape::Call(args) => Expression::Call(Box::new(operand(&texts, 0, len)), args),
                Shape::MethodCall(method, generics, args) => method_call_node(
                    operand(&texts, 0, len),
                    method,
                    generics.as_str(),
                    args,
                ),
            };
            Some(expr)
        },
    }
}

/// Parses the text of an expression into its tree: `None` where the text is
/// no expression, else the tree that `parsed` describes, in which no node is
/// in checked form.
pub fn parse(source: &str) -> (tree: Option<Expression>)
    ensures
        match tree {
            Some(expr) => parsed(source@) == Some(expr@),
            None => parsed(source@) is None,
        },
        tree matches Some(expr) ==> as_written(expr@),
{
    tree_of(source, usize::MAX)
}

} // verus!

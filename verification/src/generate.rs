//! The generated code: the rewritten expression inside a computation that
//! yields its value, or the first failure.

use vstd::prelude::*;
use vstd::string::*;
use crate::expr::{render, Expression};
use crate::rewrite::{checked_inner, rewritten};

verus! {

/// How one character is written inside a string literal.
pub open spec fn escaped_char(c: char) -> Seq<char> {
    if c == '"' {
        "\\\""@
    } else if c == '\\' {
        "\\\\"@
    } else if c == '\n' {
        "\\n"@
    } else if c == '\r' {
        "\\r"@
    } else {
        seq![c]
    }
}

/// How a text is written inside a string literal, character by character.
pub open spec fn escaped(text: Seq<char>) -> Seq<char>
    decreases text.len(),
{
    if text.len() == 0 {
        Seq::empty()
    } else {
        escaped(text.drop_last()) + escaped_char(text.last())
    }
}

/// The string literal that holds a text.
pub open spec fn quoted(text: Seq<char>) -> Seq<char> {
    "\""@ + escaped(text) + "\""@
}

/// The path under which the generated code finds the error type: `crate`
/// inside the crate that defines it, the crate's name anywhere else.
pub open spec fn error_path(in_defining_crate: bool) -> Seq<char> {
    if in_defining_crate {
        "crate"@
    } else {
        ":: smooth_operator"@
    }
}

/// The generated code around a rewritten expression: a closure, called at
/// once, that names the error type `Err` and the text of the expression
/// `ORIGINAL_EXPR`, and yields the expression's value as `Ok`. The first
/// checked primitive that fails leaves the closure with its error.
pub open spec fn wrapped(result: Seq<char>, original: Seq<char>, in_defining_crate: bool) -> Seq<
    char,
> {
    "(|| -> :: core :: result :: Result < _ , "@ + error_path(in_defining_crate)
        + " :: Error > { type Err = "@ + error_path(in_defining_crate)
        + " :: Error ; const ORIGINAL_EXPR : & 'static str = "@ + quoted(original)
        + " ; Ok (# [allow (clippy :: needless_question_mark)] # [allow (unused_parens)] { "@
        + result + " }) }) ()"@
}

/// Writes a text as a string literal.
pub fn quote_text(text: &str) -> (literal: String)
    ensures
        literal@ == quoted(text@),
{
    let len: usize = text.unicode_len();
    let mut literal = String::from_str("\"");
    let mut i: usize = 0;
    assert(text@.subrange(0, 0) =~= Seq::<char>::empty());
    while i < len
        invariant
            i <= len,
            len == text@.len(),
            literal@ == "\""@ + escaped(text@.subrange(0, i as int)),
        decreases len - i,
    {
        let c = text.get_char(i);
        proof {
            let next = text@.subrange(0, i + 1);
            assert(next.drop_last() =~= text@.subrange(0, i as int));
            assert(next.last() == c);
        }
        if c == '"' {
            literal.append("\\\"");
        } else if c == '\\' {
            literal.append("\\\\");
        } else if c == '\n' {
            literal.append("\\n");
        } else if c == '\r' {
            literal.append("\\r");
        } else {
            let one = text.substring_char(i, i + 1);
            assert(one@ =~= seq![c]);
            literal.append(one);
        }
        assert(literal@ =~= "\""@ + escaped(text@.subrange(0, i + 1)));
        i = i + 1;
    }
    assert(text@.subrange(0, len as int) =~= text@);
    literal.append("\"");
    literal
}

/// Converts the arithmetic operators of an expression to their checked
/// primitives and writes the code that computes the expression with them.
/// `in_defining_crate` says whether that code is compiled inside the crate
/// that defines the error type.
pub fn checked(expression: Expression, in_defining_crate: bool) -> (code: String)
    ensures
        code@ == wrapped(
            render(rewritten(expression@)),
            render(expression@),
            in_defining_crate,
        ),
{
    let (result, original) = checked_inner(expression);
    let path: &str = if in_defining_crate {
        "crate"
    } else {
        ":: smooth_operator"
    };
    let literal = quote_text(original.as_str());
    let mut code = String::from_str("(|| -> :: core :: result :: Result < _ , ");
    code.append(path);
    code.append(" :: Error > { type Err = ");
    code.append(path);
    code.append(" :: Error ; const ORIGINAL_EXPR : & 'static str = ");
    code.append(literal.as_str());
    code.append(
        " ; Ok (# [allow (clippy :: needless_question_mark)] # [allow (unused_parens)] { ",
    );
    code.append(result.as_str());
    code.append(" }) }) ()");
    code
}

} // verus!

use smooth_operator::syntax::{binary_node, method_call_node, method_text, unary_node};
use smooth_operator::{checked_inner, parse, rewrite, BinOp, Expression, Primitive, Site, UnOp};

fn leaf(text: &str) -> Box<Expression> {
    Box::new(Expression::Leaf(text.to_string()))
}

fn binary(op: BinOp, left: Box<Expression>, right: Box<Expression>) -> Box<Expression> {
    Box::new(Expression::Binary(op, left, right))
}

fn printed(source: &str) -> String {
    let parsed: syn::Expr = syn::parse_str(source).unwrap();
    quote::ToTokens::to_token_stream(&parsed).to_string()
}

#[test]
fn sum_is_parsed_to_the_left() {
    let tree = parse("x + 1 + 1").unwrap();
    assert_eq!(tree, *binary(BinOp::Add, binary(BinOp::Add, leaf("x"), leaf("1")), leaf("1")));
    assert_eq!(parse("x+1+1"), parse("x + 1 + 1"));
}

#[test]
fn product_binds_before_sum() {
    let tree = parse("a + b * c").unwrap();
    assert_eq!(tree, *binary(BinOp::Add, leaf("a"), binary(BinOp::Mul, leaf("b"), leaf("c"))));
    let tree = parse("a::b*c+d").unwrap();
    assert_eq!(
        tree,
        *binary(BinOp::Add, binary(BinOp::Mul, leaf("a :: b"), leaf("c")), leaf("d"))
    );
}

#[test]
fn paths_and_literals_are_leaves() {
    assert_eq!(parse("u64::MAX"), Some(Expression::Leaf("u64 :: MAX".to_string())));
    assert_eq!(parse("1_u64"), Some(Expression::Leaf("1_u64".to_string())));
    assert_eq!(parse("\"a b\""), Some(Expression::Leaf("\"a b\"".to_string())));
}

#[test]
fn unary_operators_are_told_apart() {
    assert_eq!(parse("-x"), Some(Expression::Unary(UnOp::Neg, leaf("x"))));
    assert_eq!(parse("!x"), Some(Expression::Unary(UnOp::Not, leaf("x"))));
    assert_eq!(parse("*x"), Some(Expression::Unary(UnOp::Deref, leaf("x"))));
    assert_eq!(parse("-1_i64"), Some(Expression::Unary(UnOp::Neg, leaf("1_i64"))));
}

#[test]
fn every_binary_operator_is_told_apart() {
    let ops = [
        ("+", BinOp::Add),
        ("-", BinOp::Sub),
        ("*", BinOp::Mul),
        ("/", BinOp::Div),
        ("%", BinOp::Rem),
        ("&&", BinOp::And),
        ("||", BinOp::Or),
        ("^", BinOp::BitXor),
        ("&", BinOp::BitAnd),
        ("|", BinOp::BitOr),
        ("<<", BinOp::Shl),
        (">>", BinOp::Shr),
        ("==", BinOp::Eq),
        ("<", BinOp::Lt),
        ("<=", BinOp::Le),
        ("!=", BinOp::Ne),
        (">=", BinOp::Ge),
        (">", BinOp::Gt),
        ("+=", BinOp::AddAssign),
        ("-=", BinOp::SubAssign),
        ("*=", BinOp::MulAssign),
        ("/=", BinOp::DivAssign),
        ("%=", BinOp::RemAssign),
        ("^=", BinOp::BitXorAssign),
        ("&=", BinOp::BitAndAssign),
        ("|=", BinOp::BitOrAssign),
        ("<<=", BinOp::ShlAssign),
        (">>=", BinOp::ShrAssign),
    ];
    for (token, op) in ops {
        assert_eq!(BinOp::from_token(token), Some(op));
        let source = format!("a {} b", token);
        assert_eq!(parse(&source), Some(*binary(op, leaf("a"), leaf("b"))), "{}", source);
    }
    assert_eq!(BinOp::from_token("<>"), None);
    assert_eq!(BinOp::from_token(""), None);
    assert_eq!(BinOp::from_token("+ "), None);
    assert_eq!(UnOp::from_token("-"), Some(UnOp::Neg));
    assert_eq!(UnOp::from_token("!"), Some(UnOp::Not));
    assert_eq!(UnOp::from_token("*"), Some(UnOp::Deref));
    assert_eq!(UnOp::from_token("&"), None);
}

#[test]
fn parentheses_calls_and_method_calls() {
    assert_eq!(
        parse("(a + b)"),
        Some(Expression::Paren(binary(BinOp::Add, leaf("a"), leaf("b"))))
    );
    assert_eq!(
        parse("f(a + b, c)"),
        Some(Expression::Call(leaf("f"), "a + b , c".to_string()))
    );
    assert_eq!(parse("f()"), Some(Expression::Call(leaf("f"), String::new())));
    assert_eq!(
        parse("(a - b).pow(2)"),
        Some(Expression::MethodCall(
            Box::new(Expression::Paren(binary(BinOp::Sub, leaf("a"), leaf("b")))),
            "pow".to_string(),
            "2".to_string()
        ))
    );
    assert_eq!(
        parse("v.iter().sum::<u64>()"),
        Some(Expression::MethodCall(
            Box::new(Expression::MethodCall(leaf("v"), "iter".to_string(), String::new())),
            "sum :: < u64 >".to_string(),
            String::new()
        ))
    );
    assert_eq!(method_text("sum".to_string(), ":: < u64 >"), "sum :: < u64 >");
    assert_eq!(method_text("sum".to_string(), ""), "sum");
}

#[test]
fn other_expressions_are_held_by_their_text() {
    assert_eq!(parse("a as u8"), Some(Expression::Other("a as u8".to_string())));
    assert_eq!(parse("a[i + 1]"), Some(Expression::Other("a [i + 1]".to_string())));
    assert_eq!(
        parse("a as u8 + b"),
        Some(*binary(BinOp::Add, Box::new(Expression::Other("a as u8".to_string())), leaf("b")))
    );
}

#[test]
fn what_is_no_expression_is_refused() {
    assert_eq!(parse("1 +"), None);
    assert_eq!(parse(""), None);
    assert_eq!(parse("a b"), None);
    assert_eq!(parse("(a"), None);
    assert_eq!(parse("\"a"), None);
}

#[test]
fn canonical_text_is_the_text_of_the_tokens() {
    let sources = [
        "x + 1 + 1",
        "-i64::MIN",
        "u64::MAX<<123",
        "(a + b) * f(c, d - 1) ^ 2",
        "!a + *b << 3",
        "v.iter().sum::<u64>() / n % 7",
        "a < b && c >= d || e != f",
        "f(g(h(1)))(2)",
        "((a))",
        "a[1] + b.c - d as u8",
        "x += 1",
    ];
    for source in sources {
        let tree = parse(source).unwrap();
        assert_eq!(tree.render(), printed(source), "{}", source);
        let (_, original) = checked_inner(tree);
        assert_eq!(original, printed(source), "{}", source);
    }
}

#[test]
fn parsed_comparison_is_kept_and_its_sums_are_checked() {
    let out = rewrite(parse("a + b < c").unwrap());
    let sum = Box::new(Expression::CheckedBinary(
        Primitive::Add,
        leaf("a"),
        leaf("b"),
        Site { op_ix: 3, op_len: 1 },
    ));
    assert_eq!(out, *binary(BinOp::Lt, sum, leaf("c")));
}

#[test]
fn rewritten_text_parses_to_an_expression_that_is_not_rewritten_again() {
    let (result, _) = checked_inner(parse("x + 1 + 1").unwrap());
    let again = parse(&result).unwrap();
    assert!(matches!(again, Expression::Other(_)));
    assert_eq!(again.render(), result);
    let (twice, _) = checked_inner(again);
    assert_eq!(twice, result);
}

#[test]
fn nodes_are_built_from_the_tokens_of_their_operators() {
    assert_eq!(
        binary_node("a << b".to_string(), *leaf("a"), "<<", *leaf("b")),
        *binary(BinOp::Shl, leaf("a"), leaf("b"))
    );
    assert_eq!(
        binary_node("a <> b".to_string(), *leaf("a"), "<>", *leaf("b")),
        Expression::Other("a <> b".to_string())
    );
    assert_eq!(
        unary_node("- a".to_string(), "-", *leaf("a")),
        Expression::Unary(UnOp::Neg, leaf("a"))
    );
    assert_eq!(
        unary_node("& a".to_string(), "&", *leaf("a")),
        Expression::Other("& a".to_string())
    );
    assert_eq!(
        method_call_node(*leaf("v"), "sum".to_string(), ":: < u64 >", "1".to_string()),
        Expression::MethodCall(leaf("v"), "sum :: < u64 >".to_string(), "1".to_string())
    );
}

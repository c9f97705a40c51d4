use smooth_operator::{checked_inner, parse, rewrite, run, BinOp, Expression, Primitive, Site, UnOp};

fn leaf(text: &str) -> Box<Expression> {
    Box::new(Expression::Leaf(text.to_string()))
}

fn binary(op: BinOp, left: Box<Expression>, right: Box<Expression>) -> Box<Expression> {
    Box::new(Expression::Binary(op, left, right))
}

fn checked(primitive: Primitive, left: Box<Expression>, right: Box<Expression>, ix: usize, len: usize) -> Box<Expression> {
    Box::new(Expression::CheckedBinary(primitive, left, right, Site { op_ix: ix, op_len: len }))
}

fn bind<T: Copy>(pairs: &[(&str, T)]) -> Vec<(String, T)> {
    pairs.iter().map(|(name, value)| (name.to_string(), *value)).collect()
}

fn checked_u64(source: &str, names: &[(&str, u64)]) -> Result<u64, smooth_operator::Error> {
    let tree = parse(source).expect("Failed to parse arithmetic expression");
    let (_, original) = checked_inner(parse(source).unwrap());
    let text: &'static str = Box::leak(original.into_boxed_str());
    run(&rewrite(tree), text, &bind(names)).expect("a name has no value")
}

fn checked_i64(source: &str, names: &[(&str, i64)]) -> Result<i64, smooth_operator::Error> {
    let tree = parse(source).expect("Failed to parse arithmetic expression");
    let (_, original) = checked_inner(parse(source).unwrap());
    let text: &'static str = Box::leak(original.into_boxed_str());
    run(&rewrite(tree), text, &bind(names)).expect("a name has no value")
}

#[test]
fn test_basic_use() {
    let result = checked_u64("1_u64 + 2 + 3", &[("1_u64", 1), ("2", 2), ("3", 3)]).unwrap();
    assert_eq!(result, 6);

    let x = u64::MAX - 1;
    let result = checked_u64("x + 1 + 1", &[("x", x), ("1", 1)]).unwrap_err().to_string();
    assert_eq!(result, "Failure in: x + 1  》+《  1");

    let result = checked_i64("-1_i64", &[("1_i64", 1)]).unwrap();
    assert_eq!(result, -1);

    let result = checked_i64("-i64::MIN", &[("i64 :: MIN", i64::MIN)]).unwrap_err().to_string();
    assert_eq!(result, "Failure in:  》-《  i64 :: MIN");

    let result = checked_u64("u64::MAX << 123", &[("u64 :: MAX", u64::MAX), ("123", 123)])
        .unwrap_err()
        .to_string();
    assert_eq!(result, "Failure in: u64 :: MAX  》<<《  123");
}

#[test]
fn every_arithmetic_operator_gets_its_primitive() {
    let table = [
        (BinOp::Add, Primitive::Add, 1),
        (BinOp::Sub, Primitive::Sub, 1),
        (BinOp::Mul, Primitive::Mul, 1),
        (BinOp::Div, Primitive::Div, 1),
        (BinOp::Rem, Primitive::Rem, 1),
        (BinOp::BitXor, Primitive::Pow, 1),
        (BinOp::Shl, Primitive::Shl, 2),
        (BinOp::Shr, Primitive::Shr, 2),
    ];
    for (op, primitive, len) in table {
        assert_eq!(op.checked_primitive(), Some(primitive));
        assert_eq!(op.token_str().len(), len);
        let out = rewrite(*binary(op, leaf("ab"), leaf("c")));
        assert_eq!(out, *checked(primitive, leaf("ab"), leaf("c"), 3 + len, len));
    }
}

#[test]
fn other_operators_have_no_primitive() {
    let others = [
        (BinOp::And, "&&"),
        (BinOp::Or, "||"),
        (BinOp::BitAnd, "&"),
        (BinOp::BitOr, "|"),
        (BinOp::Eq, "=="),
        (BinOp::Lt, "<"),
        (BinOp::Le, "<="),
        (BinOp::Ne, "!="),
        (BinOp::Ge, ">="),
        (BinOp::Gt, ">"),
        (BinOp::AddAssign, "+="),
        (BinOp::SubAssign, "-="),
        (BinOp::MulAssign, "*="),
        (BinOp::DivAssign, "/="),
        (BinOp::RemAssign, "%="),
        (BinOp::BitXorAssign, "^="),
        (BinOp::BitAndAssign, "&="),
        (BinOp::BitOrAssign, "|="),
        (BinOp::ShlAssign, "<<="),
        (BinOp::ShrAssign, ">>="),
    ];
    for (op, token) in others {
        assert_eq!(op.checked_primitive(), None);
        assert_eq!(op.token_str(), token);
        let out = rewrite(*binary(op, leaf("a"), leaf("b")));
        assert_eq!(out, *binary(op, leaf("a"), leaf("b")));
    }
}

#[test]
fn method_names_of_the_primitives() {
    assert_eq!(Primitive::Add.method_str(), "checked_add");
    assert_eq!(Primitive::Sub.method_str(), "checked_sub");
    assert_eq!(Primitive::Mul.method_str(), "checked_mul");
    assert_eq!(Primitive::Div.method_str(), "checked_div");
    assert_eq!(Primitive::Rem.method_str(), "checked_rem");
    assert_eq!(Primitive::Pow.method_str(), "checked_pow");
    assert_eq!(Primitive::Shl.method_str(), "checked_shl");
    assert_eq!(Primitive::Shr.method_str(), "checked_shr");
    assert_eq!(UnOp::Neg.token_str(), "-");
    assert_eq!(UnOp::Not.token_str(), "!");
    assert_eq!(UnOp::Deref.token_str(), "*");
}

#[test]
fn offsets_come_from_the_text_before_rewriting() {
    // a * b + c: the sum's left operand is "a * b", five characters.
    let tree = *binary(BinOp::Add, binary(BinOp::Mul, leaf("a"), leaf("b")), leaf("c"));
    let out = rewrite(tree);
    let product = checked(Primitive::Mul, leaf("a"), leaf("b"), 3, 1);
    assert_eq!(out, *checked(Primitive::Add, product, leaf("c"), 7, 1));
}

#[test]
fn comparison_stays_and_its_operands_are_rewritten() {
    let tree = *binary(
        BinOp::Lt,
        binary(BinOp::Add, leaf("a"), leaf("b")),
        binary(BinOp::Mul, leaf("c"), leaf("d")),
    );
    let out = rewrite(tree);
    let expected = *binary(
        BinOp::Lt,
        checked(Primitive::Add, leaf("a"), leaf("b"), 3, 1),
        checked(Primitive::Mul, leaf("c"), leaf("d"), 3, 1),
    );
    assert_eq!(out, expected);
}

#[test]
fn negation_is_checked_and_other_unary_operators_stay() {
    let out = rewrite(Expression::Unary(UnOp::Neg, binary(BinOp::Sub, leaf("a"), leaf("b"))));
    let inner = checked(Primitive::Sub, leaf("a"), leaf("b"), 3, 1);
    assert_eq!(out, Expression::CheckedUnary(inner, Site { op_ix: 0, op_len: 1 }));

    let out = rewrite(Expression::Unary(UnOp::Not, binary(BinOp::Sub, leaf("a"), leaf("b"))));
    let inner = checked(Primitive::Sub, leaf("a"), leaf("b"), 3, 1);
    assert_eq!(out, Expression::Unary(UnOp::Not, inner));

    let out = rewrite(Expression::Unary(UnOp::Deref, leaf("p")));
    assert_eq!(out, Expression::Unary(UnOp::Deref, leaf("p")));
}

#[test]
fn parentheses_are_kept_and_their_inside_is_rewritten() {
    let out = rewrite(Expression::Paren(binary(BinOp::Div, leaf("a"), leaf("b"))));
    assert_eq!(out, Expression::Paren(checked(Primitive::Div, leaf("a"), leaf("b"), 3, 1)));
}

#[test]
fn calls_are_rewritten_in_callee_and_receiver_only() {
    let call = Expression::Call(binary(BinOp::Add, leaf("f"), leaf("g")), "a + b , c".to_string());
    assert_eq!(call.render(), "f + g (a + b , c)");
    let out = rewrite(call);
    let callee = checked(Primitive::Add, leaf("f"), leaf("g"), 3, 1);
    assert_eq!(out, Expression::Call(callee, "a + b , c".to_string()));

    let call = Expression::MethodCall(
        Box::new(Expression::Paren(binary(BinOp::Rem, leaf("a"), leaf("b")))),
        "pow".to_string(),
        "2 + 1".to_string(),
    );
    assert_eq!(call.render(), "(a % b) . pow (2 + 1)");
    let out = rewrite(call);
    let receiver = Box::new(Expression::Paren(checked(Primitive::Rem, leaf("a"), leaf("b"), 3, 1)));
    assert_eq!(out, Expression::MethodCall(receiver, "pow".to_string(), "2 + 1".to_string()));

    let call = Expression::Call(leaf("f"), String::new());
    assert_eq!(call.render(), "f ()");
}

#[test]
fn leaves_and_other_nodes_stay() {
    assert_eq!(rewrite(Expression::Leaf("x".to_string())), Expression::Leaf("x".to_string()));
    assert_eq!(
        rewrite(Expression::Other("a as u8 + 1".to_string())),
        Expression::Other("a as u8 + 1".to_string())
    );
}

#[test]
fn rewriting_twice_is_rewriting_once() {
    let build = || {
        *binary(
            BinOp::Ge,
            binary(BinOp::Add, binary(BinOp::Shl, leaf("a"), leaf("b")), leaf("c")),
            Box::new(Expression::Unary(
                UnOp::Neg,
                Box::new(Expression::Paren(binary(BinOp::BitXor, leaf("d"), leaf("e")))),
            )),
        )
    };
    let once = rewrite(build());
    let twice = rewrite(rewrite(build()));
    assert_eq!(once, twice);
    assert!(once != build());
}

#[test]
fn rewritten_sum_calls_checked_add() {
    let sum = *binary(BinOp::Add, leaf("a"), leaf("b"));
    let (result, original) = checked_inner(sum);
    assert_eq!(original, "a + b");
    assert_eq!(
        result,
        "a . checked_add (b) . ok_or (Err { expr : ORIGINAL_EXPR , __op_ix : 3usize , __op_len : 1usize }) ?"
    );
}

#[test]
fn rewritten_negation_calls_checked_neg() {
    let (result, original) = checked_inner(Expression::Unary(UnOp::Neg, leaf("x")));
    assert_eq!(original, "- x");
    assert_eq!(
        result,
        "x . checked_neg () . ok_or (Err { expr : ORIGINAL_EXPR , __op_ix : 0usize , __op_len : 1usize }) ?"
    );
}

#[test]
fn offsets_are_written_in_decimal() {
    let long = "abcdefghijklmnopqrstuvwxyz".repeat(4);
    let (result, _) = checked_inner(*binary(BinOp::Shr, leaf(&long), leaf("1")));
    let expected = format!(
        "{} . checked_shr (1) . ok_or (Err {{ expr : ORIGINAL_EXPR , __op_ix : 107usize , __op_len : 2usize }}) ?",
        long
    );
    assert_eq!(result, expected);
    assert_eq!(smooth_operator::decimal::decimal_string(0), "0");
    assert_eq!(smooth_operator::decimal::decimal_string(9), "9");
    assert_eq!(smooth_operator::decimal::decimal_string(10), "10");
    assert_eq!(smooth_operator::decimal::decimal_string(1234567890), "1234567890");
    assert_eq!(smooth_operator::decimal::decimal_string(usize::MAX), usize::MAX.to_string());
}

#[test]
fn loose_receivers_are_put_in_parentheses() {
    // ! a + b: the method is called on the whole of "! a".
    let (result, original) =
        checked_inner(*binary(BinOp::Add, Box::new(Expression::Unary(UnOp::Not, leaf("a"))), leaf("b")));
    assert_eq!(original, "! a + b");
    assert_eq!(
        result,
        "(! a) . checked_add (b) . ok_or (Err { expr : ORIGINAL_EXPR , __op_ix : 5usize , __op_len : 1usize }) ?"
    );
    let (result, _) = checked_inner(*binary(
        BinOp::Mul,
        Box::new(Expression::Other("a as u8".to_string())),
        leaf("b"),
    ));
    assert_eq!(
        result,
        "(a as u8) . checked_mul (b) . ok_or (Err { expr : ORIGINAL_EXPR , __op_ix : 9usize , __op_len : 1usize }) ?"
    );
    let (result, _) = checked_inner(*binary(
        BinOp::Sub,
        binary(BinOp::Add, leaf("a"), leaf("b")),
        binary(BinOp::Lt, leaf("c"), leaf("d")),
    ));
    assert_eq!(
        result,
        "a . checked_add (b) . ok_or (Err { expr : ORIGINAL_EXPR , __op_ix : 3usize , __op_len : 1usize }) ? . checked_sub (c < d) . ok_or (Err { expr : ORIGINAL_EXPR , __op_ix : 7usize , __op_len : 1usize }) ?"
    );
    assert!(Expression::Leaf("a".to_string()).binds_tightly());
    assert!(!Expression::Other("a".to_string()).binds_tightly());
    assert_eq!(Expression::Other("a as u8".to_string()).receiver(), "(a as u8)");
    assert_eq!(Expression::Paren(leaf("a")).receiver(), "(a)");
}

use smooth_operator::generate::quote_text;
use smooth_operator::{checked, parse, BinOp, Expression};

fn leaf(text: &str) -> Box<Expression> {
    Box::new(Expression::Leaf(text.to_string()))
}

#[test]
fn generated_code_wraps_the_rewritten_expression() {
    let code = checked(Expression::Binary(BinOp::Shr, leaf("\"a\\b\""), leaf("12")), false);
    assert_eq!(
        code,
        "(|| -> :: core :: result :: Result < _ , :: smooth_operator :: Error > { type Err = :: smooth_operator :: Error ; const ORIGINAL_EXPR : & 'static str = \"\\\"a\\\\b\\\" >> 12\" ; Ok (# [allow (clippy :: needless_question_mark)] # [allow (unused_parens)] { \"a\\b\" . checked_shr (12) . ok_or (Err { expr : ORIGINAL_EXPR , __op_ix : 8usize , __op_len : 2usize }) ? }) }) ()"
    );
}

#[test]
fn generated_code_inside_the_defining_crate_names_it_crate() {
    let code = checked(Expression::Leaf("x".to_string()), true);
    assert_eq!(
        code,
        "(|| -> :: core :: result :: Result < _ , crate :: Error > { type Err = crate :: Error ; const ORIGINAL_EXPR : & 'static str = \"x\" ; Ok (# [allow (clippy :: needless_question_mark)] # [allow (unused_parens)] { x }) }) ()"
    );
}

#[test]
fn string_literal_escapes() {
    assert_eq!(quote_text(""), "\"\"");
    assert_eq!(quote_text("x + 1"), "\"x + 1\"");
    assert_eq!(quote_text("a\"b"), "\"a\\\"b\"");
    assert_eq!(quote_text("a\\b"), "\"a\\\\b\"");
    assert_eq!(quote_text("a\nb\rc"), "\"a\\nb\\rc\"");
    assert_eq!(quote_text("é 》"), "\"é 》\"");
}

fn printed(source: &str) -> String {
    source.parse::<proc_macro2::TokenStream>().unwrap().to_string()
}

#[test]
fn generated_code_is_printed_as_its_tokens_are() {
    let sources = [
        "x + 1 + 1",
        "-i64::MIN",
        "(a + b) * f(c, d - 1) ^ 2",
        "!a + b << 3",
        "v.iter().sum::<u64>() / n % 7",
        "\"a\\\\b\" >> 12",
    ];
    for source in sources {
        let code = checked(parse(source).unwrap(), false);
        assert_eq!(code, printed(&code));
        let code = checked(parse(source).unwrap(), true);
        assert_eq!(code, printed(&code));
    }
}

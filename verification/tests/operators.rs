use elorapi::operators::{
    apply_bool_op, apply_op_bool, apply_op_f32, apply_op_int, apply_op_text, fold_bools,
    resolve_bool_op, resolve_operator, BoolOp, CompOp,
};

fn resolve(tok: &str) -> CompOp {
    resolve_operator(tok).expect("token must resolve")
}

#[test]
fn operator_tokens_resolve() {
    assert_eq!(resolve("<"), CompOp::Lt);
    assert_eq!(resolve("<="), CompOp::Le);
    assert_eq!(resolve(">"), CompOp::Gt);
    assert_eq!(resolve(">="), CompOp::Ge);
    assert_eq!(resolve("=="), CompOp::Eq);
    assert_eq!(resolve("!="), CompOp::Ne);
}

#[test]
fn unrecognized_operator_token_fails() {
    assert!(resolve_operator("<>").is_err());
    assert!(resolve_operator("").is_err());
    assert!(resolve_operator("=<").is_err());
}

#[test]
fn int_comparisons_match_natural_order() {
    let cases = [(1i32, 2i32), (2, 1), (2, 2), (-5, 3), (i32::MIN, i32::MAX)];
    for &(a, b) in &cases {
        assert_eq!(apply_op_int(resolve("<"), a, b), a < b);
        assert_eq!(apply_op_int(resolve("<="), a, b), a <= b);
        assert_eq!(apply_op_int(resolve(">"), a, b), a > b);
        assert_eq!(apply_op_int(resolve(">="), a, b), a >= b);
        assert_eq!(apply_op_int(resolve("=="), a, b), a == b);
        assert_eq!(apply_op_int(resolve("!="), a, b), a != b);
    }
}

#[test]
fn bool_comparisons_match_natural_order() {
    for &a in &[false, true] {
        for &b in &[false, true] {
            assert_eq!(apply_op_bool(resolve("<"), a, b), a < b);
            assert_eq!(apply_op_bool(resolve("<="), a, b), a <= b);
            assert_eq!(apply_op_bool(resolve(">"), a, b), a > b);
            assert_eq!(apply_op_bool(resolve(">="), a, b), a >= b);
            assert_eq!(apply_op_bool(resolve("=="), a, b), a == b);
            assert_eq!(apply_op_bool(resolve("!="), a, b), a != b);
        }
    }
}

#[test]
fn text_comparisons_are_lexicographic() {
    let cases = [("abc", "abd"), ("abd", "abc"), ("abc", "abc"), ("ab", "abc"), ("", "a"), ("open", "close")];
    for &(a, b) in &cases {
        assert_eq!(apply_op_text(resolve("<"), a, b), a < b);
        assert_eq!(apply_op_text(resolve("<="), a, b), a <= b);
        assert_eq!(apply_op_text(resolve(">"), a, b), a > b);
        assert_eq!(apply_op_text(resolve(">="), a, b), a >= b);
        assert_eq!(apply_op_text(resolve("=="), a, b), a == b);
        assert_eq!(apply_op_text(resolve("!="), a, b), a != b);
    }
}

#[test]
fn float_comparisons_match_natural_order() {
    let values = [-3.5f32, -0.0, 0.0, 1.5, 2.0, 21.0, f32::INFINITY, f32::NEG_INFINITY];
    for &a in &values {
        for &b in &values {
            let (x, y) = (a.to_bits(), b.to_bits());
            assert_eq!(apply_op_f32(resolve("<"), x, y), a < b, "{} < {}", a, b);
            assert_eq!(apply_op_f32(resolve("<="), x, y), a <= b, "{} <= {}", a, b);
            assert_eq!(apply_op_f32(resolve(">"), x, y), a > b, "{} > {}", a, b);
            assert_eq!(apply_op_f32(resolve(">="), x, y), a >= b, "{} >= {}", a, b);
            assert_eq!(apply_op_f32(resolve("=="), x, y), a == b, "{} == {}", a, b);
            assert_eq!(apply_op_f32(resolve("!="), x, y), a != b, "{} != {}", a, b);
        }
    }
}

#[test]
fn float_comparisons_handle_nan() {
    let nan = f32::NAN.to_bits();
    let one = 1.0f32.to_bits();
    for tok in ["<", "<=", ">", ">=", "=="] {
        assert!(!apply_op_f32(resolve(tok), nan, one));
        assert!(!apply_op_f32(resolve(tok), one, nan));
        assert!(!apply_op_f32(resolve(tok), nan, nan));
    }
    assert!(apply_op_f32(resolve("!="), nan, one));
    assert!(apply_op_f32(resolve("!="), nan, nan));
}

#[test]
fn combinator_tokens_resolve() {
    assert_eq!(resolve_bool_op("&"), Ok(BoolOp::And));
    assert_eq!(resolve_bool_op("|"), Ok(BoolOp::Or));
    assert_eq!(resolve_bool_op("^"), Ok(BoolOp::Xor));
    assert!(resolve_bool_op("&&").is_err());
    assert!(resolve_bool_op("and").is_err());
}

#[test]
fn combinators_apply() {
    assert_eq!(apply_bool_op(BoolOp::And, true, false), false);
    assert_eq!(apply_bool_op(BoolOp::Or, true, false), true);
    assert_eq!(apply_bool_op(BoolOp::Xor, true, true), false);
    assert_eq!(apply_bool_op(BoolOp::Xor, true, false), true);
}

#[test]
fn fold_is_left_to_right() {
    // (true & false) | true = true
    let bools = vec![true, false, true];
    let ops = vec![BoolOp::And, BoolOp::Or];
    assert_eq!(fold_bools(&bools, &ops), true);
    // right-to-left would give true & (false | true) = true too; pin the
    // order with xor: (true ^ true) & true = false, right-assoc would give
    // true ^ (true & true) = false as well — take (false | true) & false:
    let bools2 = vec![false, true, false];
    let ops2 = vec![BoolOp::Or, BoolOp::And];
    assert_eq!(fold_bools(&bools2, &ops2), false);
    // left order distinguishable: (true | false) & false = false, while
    // true | (false & false) = true
    let bools3 = vec![true, false, false];
    let ops3 = vec![BoolOp::Or, BoolOp::And];
    assert_eq!(fold_bools(&bools3, &ops3), false);
}

#[test]
fn fold_single_condition_stands_alone() {
    assert_eq!(fold_bools(&vec![true], &vec![]), true);
    assert_eq!(fold_bools(&vec![false], &vec![]), false);
}

//! Resolution of the comparison-operator and combinator tokens, and the
//! comparison itself for each kind of value a condition can hold.
//!
//! A condition's operator is one of the six tokens `<` `<=` `>` `>=` `==`
//! `!=`; any other token is a resolution failure, which is fatal to the
//! owning rule. Each value kind compares by its natural order: integers and
//! booleans by their order, text lexicographically, floating-point values by
//! the order of what their bit patterns stand for. The combinators between
//! two conditions are `&`, `|` and `^`; any other token is fatal as well.

use vstd::prelude::*;

use crate::floatbits::{
    f32_bits_eq,
    f32_bits_le,
    f32_bits_lt,
    spec_f32_eq,
    spec_f32_le,
    spec_f32_lt,
};
use crate::textutil::{lex_lt, spec_lex_lt, str_eq};

verus! {

/// One of the six comparison operators.
#[derive(Clone, Copy, PartialEq, Eq, Structural, Debug)]
pub enum CompOp {
    Lt,
    Le,
    Gt,
    Ge,
    Eq,
    Ne,
}

/// The operator a token resolves to, or `None` for an unrecognized token.
pub open spec fn spec_resolve_operator(token: Seq<char>) -> Option<CompOp> {
    if token == "<"@ {
        Some(CompOp::Lt)
    } else if token == "<="@ {
        Some(CompOp::Le)
    } else if token == ">"@ {
        Some(CompOp::Gt)
    } else if token == ">="@ {
        Some(CompOp::Ge)
    } else if token == "=="@ {
        Some(CompOp::Eq)
    } else if token == "!="@ {
        Some(CompOp::Ne)
    } else {
        None
    }
}

/// Resolves a comparison-operator token. An unrecognized token is an error,
/// which is fatal to the rule that carries it.
pub fn resolve_operator(token: &str) -> (r: Result<CompOp, ()>)
    ensures
        r is Ok ==> spec_resolve_operator(token@) == Some(r->Ok_0),
        r is Err ==> spec_resolve_operator(token@) is None,
{
    if str_eq(token, "<") {
        Ok(CompOp::Lt)
    } else if str_eq(token, "<=") {
        Ok(CompOp::Le)
    } else if str_eq(token, ">") {
        Ok(CompOp::Gt)
    } else if str_eq(token, ">=") {
        Ok(CompOp::Ge)
    } else if str_eq(token, "==") {
        Ok(CompOp::Eq)
    } else if str_eq(token, "!=") {
        Ok(CompOp::Ne)
    } else {
        Err(())
    }
}

/// The operator applied to two signed integers, by their order.
pub open spec fn spec_apply_op_int(op: CompOp, a: i32, b: i32) -> bool {
    match op {
        CompOp::Lt => a < b,
        CompOp::Le => a <= b,
        CompOp::Gt => a > b,
        CompOp::Ge => a >= b,
        CompOp::Eq => a == b,
        CompOp::Ne => a != b,
    }
}

/// Compares two signed integers under the operator.
pub fn apply_op_int(op: CompOp, a: i32, b: i32) -> (r: bool)
    ensures
        r == spec_apply_op_int(op, a, b),
{
    match op {
        CompOp::Lt => a < b,
        CompOp::Le => a <= b,
        CompOp::Gt => a > b,
        CompOp::Ge => a >= b,
        CompOp::Eq => a == b,
        CompOp::Ne => a != b,
    }
}

/// The operator applied to two booleans: `false` lies below `true`.
pub open spec fn spec_apply_op_bool(op: CompOp, a: bool, b: bool) -> bool {
    match op {
        CompOp::Lt => !a && b,
        CompOp::Le => !a || b,
        CompOp::Gt => a && !b,
        CompOp::Ge => a || !b,
        CompOp::Eq => a == b,
        CompOp::Ne => a != b,
    }
}

/// Compares two booleans under the operator.
pub fn apply_op_bool(op: CompOp, a: bool, b: bool) -> (r: bool)
    ensures
        r == spec_apply_op_bool(op, a, b),
{
    match op {
        CompOp::Lt => !a && b,
        CompOp::Le => !a || b,
        CompOp::Gt => a && !b,
        CompOp::Ge => a || !b,
        CompOp::Eq => a == b,
        CompOp::Ne => a != b,
    }
}

/// The operator applied to two texts, lexicographically.
pub open spec fn spec_apply_op_text(op: CompOp, a: Seq<char>, b: Seq<char>) -> bool {
    match op {
        CompOp::Lt => spec_lex_lt(a, b),
        CompOp::Le => spec_lex_lt(a, b) || a == b,
        CompOp::Gt => spec_lex_lt(b, a),
        CompOp::Ge => spec_lex_lt(b, a) || a == b,
        CompOp::Eq => a == b,
        CompOp::Ne => a != b,
    }
}

/// Compares two texts under the operator.
pub fn apply_op_text(op: CompOp, a: &str, b: &str) -> (r: bool)
    ensures
        r == spec_apply_op_text(op, a@, b@),
{
    match op {
        CompOp::Lt => lex_lt(a, b),
        CompOp::Le => lex_lt(a, b) || str_eq(a, b),
        CompOp::Gt => lex_lt(b, a),
        CompOp::Ge => lex_lt(b, a) || str_eq(a, b),
        CompOp::Eq => str_eq(a, b),
        CompOp::Ne => !str_eq(a, b),
    }
}

/// The operator applied to two floating-point bit patterns, by the order of
/// the values they stand for.
pub open spec fn spec_apply_op_f32(op: CompOp, a: u32, b: u32) -> bool {
    match op {
        CompOp::Lt => spec_f32_lt(a, b),
        CompOp::Le => spec_f32_le(a, b),
        CompOp::Gt => spec_f32_lt(b, a),
        CompOp::Ge => spec_f32_le(b, a),
        CompOp::Eq => spec_f32_eq(a, b),
        CompOp::Ne => !spec_f32_eq(a, b),
    }
}

/// Compares two floating-point bit patterns under the operator.
pub fn apply_op_f32(op: CompOp, a: u32, b: u32) -> (r: bool)
    ensures
        r == spec_apply_op_f32(op, a, b),
{
    match op {
        CompOp::Lt => f32_bits_lt(a, b),
        CompOp::Le => f32_bits_le(a, b),
        CompOp::Gt => f32_bits_lt(b, a),
        CompOp::Ge => f32_bits_le(b, a),
        CompOp::Eq => f32_bits_eq(a, b),
        CompOp::Ne => !f32_bits_eq(a, b),
    }
}

/// One of the three boolean combinators between two conditions.
#[derive(Clone, Copy, PartialEq, Eq, Structural, Debug)]
pub enum BoolOp {
    And,
    Or,
    Xor,
}

/// The combinator a token resolves to, or `None` for an unrecognized token.
pub open spec fn spec_resolve_bool_op(token: Seq<char>) -> Option<BoolOp> {
    if token == "&"@ {
        Some(BoolOp::And)
    } else if token == "|"@ {
        Some(BoolOp::Or)
    } else if token == "^"@ {
        Some(BoolOp::Xor)
    } else {
        None
    }
}

/// Resolves a combinator token. An unrecognized token is an error, which is
/// fatal to the rule that carries it.
pub fn resolve_bool_op(token: &str) -> (r: Result<BoolOp, ()>)
    ensures
        r is Ok ==> spec_resolve_bool_op(token@) == Some(r->Ok_0),
        r is Err ==> spec_resolve_bool_op(token@) is None,
{
    if str_eq(token, "&") {
        Ok(BoolOp::And)
    } else if str_eq(token, "|") {
        Ok(BoolOp::Or)
    } else if str_eq(token, "^") {
        Ok(BoolOp::Xor)
    } else {
        Err(())
    }
}

/// One combinator applied to two booleans.
pub open spec fn spec_apply_bool_op(op: BoolOp, a: bool, b: bool) -> bool {
    match op {
        BoolOp::And => a && b,
        BoolOp::Or => a || b,
        BoolOp::Xor => a != b,
    }
}

/// Applies one combinator to two booleans.
pub fn apply_bool_op(op: BoolOp, a: bool, b: bool) -> (r: bool)
    ensures
        r == spec_apply_bool_op(op, a, b),
{
    match op {
        BoolOp::And => a && b,
        BoolOp::Or => a || b,
        BoolOp::Xor => a != b,
    }
}

/// The left-to-right fold of the combinators over the condition results,
/// beginning from an accumulator: each step combines the accumulator with
/// the next result under the next combinator.
pub open spec fn spec_fold_from(acc: bool, rest: Seq<bool>, ops: Seq<BoolOp>) -> bool
    decreases ops.len(),
{
    if ops.len() == 0 || rest.len() == 0 {
        acc
    } else {
        spec_fold_from(spec_apply_bool_op(ops[0], acc, rest[0]), rest.drop_first(), ops.drop_first())
    }
}

/// The left-to-right fold over a non-empty result list: the first result,
/// combined step by step with each following result.
pub open spec fn spec_fold_bools(bools: Seq<bool>, ops: Seq<BoolOp>) -> bool
    recommends
        bools.len() >= 1,
{
    spec_fold_from(bools[0], bools.drop_first(), ops)
}

/// Folds the condition results left-to-right under the combinators: with
/// results `b0, b1, ..., bn` and combinators `op0, ..., op(n-1)`, the result
/// is `op(n-1)(...(op0(b0, b1))..., bn)`. A single result stands alone.
pub fn fold_bools(bools: &Vec<bool>, ops: &Vec<BoolOp>) -> (r: bool)
    requires
        bools@.len() == ops@.len() + 1,
    ensures
        r == spec_fold_bools(bools@, ops@),
{
    let mut acc = bools[0];
    let mut k: usize = 0;
    proof {
        assert(bools@.drop_first() =~= bools@.skip(1));
        assert(ops@.skip(0) =~= ops@);
    }
    while k < ops.len()
        invariant
            bools@.len() == ops@.len() + 1,
            0 <= k <= ops@.len(),
            spec_fold_bools(bools@, ops@) == spec_fold_from(
                acc,
                bools@.skip(k + 1),
                ops@.skip(k as int),
            ),
        decreases ops@.len() - k,
    {
        proof {
            assert(bools@.skip(k + 1)[0] == bools@[k + 1]);
            assert(ops@.skip(k as int)[0] == ops@[k as int]);
            assert(bools@.skip(k + 1).drop_first() =~= bools@.skip(k + 2));
            assert(ops@.skip(k as int).drop_first() =~= ops@.skip(k + 1));
        }
        acc = apply_bool_op(ops[k], acc, bools[k + 1]);
        k = k + 1;
    }
    proof {
        assert(bools@.skip(k + 1).len() == 0);
    }
    acc
}

} // verus!

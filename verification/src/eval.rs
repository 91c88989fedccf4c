//! Interpretation of invariant expressions against a live instance.
//!
//! A live instance is presented as an environment: the ordered field
//! bindings of the value under check.  [`eval`] computes the value of one
//! expression in that environment, with checked integer arithmetic; any
//! unbound name, type mismatch, overflow or division by zero makes the
//! expression evaluate to `None`, which the validator treats as a
//! violation, never as success.

use vstd::prelude::*;
use crate::ast::{BinaryOperator, ExpressionNode, FieldMember, LiteralValue, UnaryOperator};
use crate::translate::is_self_field;

verus! {

/// A runtime value an invariant expression can take: the supported literal
/// kinds, integer and boolean.
#[derive(Clone, Copy, PartialEq, Eq, Structural, Debug)]
pub enum FieldValue {
    Int(i64),
    Bool(bool),
}

/// One field of a live instance: its name and its current value.
#[derive(Debug)]
pub struct Binding {
    pub name: String,
    pub value: FieldValue,
}

/// The value bound to `name`: the first binding with that name wins.
pub open spec fn lookup(env: Seq<Binding>, name: Seq<char>) -> Option<FieldValue>
    decreases env.len(),
{
    if env.len() == 0 {
        None
    } else if env[0].name@ == name {
        Some(env[0].value)
    } else {
        lookup(env.drop_first(), name)
    }
}

/// The result of a non-short-circuit binary operator on two values:
/// comparisons on matching kinds, checked arithmetic on integers, `None`
/// on a type mismatch, overflow, division by zero or an unsupported
/// operator.
pub open spec fn apply_binary(op: BinaryOperator, lv: FieldValue, rv: FieldValue) -> Option<
    FieldValue,
> {
    match (op, lv, rv) {
        (BinaryOperator::Eq, FieldValue::Int(a), FieldValue::Int(b)) => Some(
            FieldValue::Bool(a == b),
        ),
        (BinaryOperator::Eq, FieldValue::Bool(a), FieldValue::Bool(b)) => Some(
            FieldValue::Bool(a == b),
        ),
        (BinaryOperator::Ne, FieldValue::Int(a), FieldValue::Int(b)) => Some(
            FieldValue::Bool(a != b),
        ),
        (BinaryOperator::Ne, FieldValue::Bool(a), FieldValue::Bool(b)) => Some(
            FieldValue::Bool(a != b),
        ),
        (BinaryOperator::Lt, FieldValue::Int(a), FieldValue::Int(b)) => Some(
            FieldValue::Bool(a < b),
        ),
        (BinaryOperator::Le, FieldValue::Int(a), FieldValue::Int(b)) => Some(
            FieldValue::Bool(a <= b),
        ),
        (BinaryOperator::Gt, FieldValue::Int(a), FieldValue::Int(b)) => Some(
            FieldValue::Bool(a > b),
        ),
        (BinaryOperator::Ge, FieldValue::Int(a), FieldValue::Int(b)) => Some(
            FieldValue::Bool(a >= b),
        ),
        (BinaryOperator::Add, FieldValue::Int(a), FieldValue::Int(b)) => match a.checked_add(b) {
            Some(c) => Some(FieldValue::Int(c)),
            None => None,
        },
        (BinaryOperator::Sub, FieldValue::Int(a), FieldValue::Int(b)) => match a.checked_sub(b) {
            Some(c) => Some(FieldValue::Int(c)),
            None => None,
        },
        (BinaryOperator::Mul, FieldValue::Int(a), FieldValue::Int(b)) => match a.checked_mul(b) {
            Some(c) => Some(FieldValue::Int(c)),
            None => None,
        },
        (BinaryOperator::Div, FieldValue::Int(a), FieldValue::Int(b)) => match a.checked_div(b) {
            Some(c) => Some(FieldValue::Int(c)),
            None => None,
        },
        (BinaryOperator::Rem, FieldValue::Int(a), FieldValue::Int(b)) => match a.checked_rem(b) {
            Some(c) => Some(FieldValue::Int(c)),
            None => None,
        },
        _ => None,
    }
}

/// The value of an expression in an environment.  `&&` and `||`
/// short-circuit as they do in the source language; everything else is
/// [`apply_binary`] on the children's values.
pub open spec fn eval_node(node: ExpressionNode, env: Seq<Binding>) -> Option<FieldValue>
    decreases node,
{
    match node {
        ExpressionNode::Binary(op, l, r) => match op {
            BinaryOperator::And => match eval_node(*l, env) {
                Some(FieldValue::Bool(false)) => Some(FieldValue::Bool(false)),
                Some(FieldValue::Bool(true)) => match eval_node(*r, env) {
                    Some(FieldValue::Bool(b)) => Some(FieldValue::Bool(b)),
                    _ => None,
                },
                _ => None,
            },
            BinaryOperator::Or => match eval_node(*l, env) {
                Some(FieldValue::Bool(true)) => Some(FieldValue::Bool(true)),
                Some(FieldValue::Bool(false)) => match eval_node(*r, env) {
                    Some(FieldValue::Bool(b)) => Some(FieldValue::Bool(b)),
                    _ => None,
                },
                _ => None,
            },
            _ => match (eval_node(*l, env), eval_node(*r, env)) {
                (Some(lv), Some(rv)) => apply_binary(op, lv, rv),
                _ => None,
            },
        },
        ExpressionNode::Unary(op, e) => match (op, eval_node(*e, env)) {
            (UnaryOperator::Not, Some(FieldValue::Bool(b))) => Some(FieldValue::Bool(!b)),
            (UnaryOperator::Neg, Some(FieldValue::Int(i))) => if i == i64::MIN {
                None
            } else {
                Some(FieldValue::Int((-i) as i64))
            },
            _ => None,
        },
        ExpressionNode::FieldAccess(base, member) => if is_self_field(*base, member) {
            match member {
                FieldMember::Named(f) => lookup(env, f@),
                FieldMember::Unnamed(_) => None,
            }
        } else {
            None
        },
        ExpressionNode::Identifier(name) => lookup(env, name@),
        ExpressionNode::Literal(lit) => match lit {
            LiteralValue::Int(n) => if n <= i64::MAX as u64 {
                Some(FieldValue::Int(n as i64))
            } else {
                None
            },
            LiteralValue::Bool(b) => Some(FieldValue::Bool(b)),
            LiteralValue::Other(_) => None,
        },
    }
}

fn lookup_value_from(env: &Vec<Binding>, name: &String, i: usize) -> (r: Option<FieldValue>)
    requires
        i <= env@.len(),
    ensures
        r == lookup(env@.skip(i as int), name@),
    decreases env@.len() - i,
{
    if i == env.len() {
        None
    } else if env[i].name == *name {
        Some(env[i].value)
    } else {
        let r = lookup_value_from(env, name, i + 1);
        proof {
            assert(env@.skip(i as int).drop_first() =~= env@.skip(i as int + 1));
        }
        r
    }
}

/// Looks a name up in the environment, first binding first.
pub fn lookup_value(env: &Vec<Binding>, name: &String) -> (r: Option<FieldValue>)
    ensures
        r == lookup(env@, name@),
{
    proof {
        assert(env@.skip(0) =~= env@);
    }
    lookup_value_from(env, name, 0)
}

fn apply_binary_op(op: BinaryOperator, lv: FieldValue, rv: FieldValue) -> (r: Option<FieldValue>)
    ensures
        r == apply_binary(op, lv, rv),
{
    match (op, lv, rv) {
        (BinaryOperator::Eq, FieldValue::Int(a), FieldValue::Int(b)) => Some(
            FieldValue::Bool(a == b),
        ),
        (BinaryOperator::Eq, FieldValue::Bool(a), FieldValue::Bool(b)) => Some(
            FieldValue::Bool(a == b),
        ),
        (BinaryOperator::Ne, FieldValue::Int(a), FieldValue::Int(b)) => Some(
            FieldValue::Bool(a != b),
        ),
        (BinaryOperator::Ne, FieldValue::Bool(a), FieldValue::Bool(b)) => Some(
            FieldValue::Bool(a != b),
        ),
        (BinaryOperator::Lt, FieldValue::Int(a), FieldValue::Int(b)) => Some(
            FieldValue::Bool(a < b),
        ),
        (BinaryOperator::Le, FieldValue::Int(a), FieldValue::Int(b)) => Some(
            FieldValue::Bool(a <= b),
        ),
        (BinaryOperator::Gt, FieldValue::Int(a), FieldValue::Int(b)) => Some(
            FieldValue::Bool(a > b),
        ),
        (BinaryOperator::Ge, FieldValue::Int(a), FieldValue::Int(b)) => Some(
            FieldValue::Bool(a >= b),
        ),
        (BinaryOperator::Add, FieldValue::Int(a), FieldValue::Int(b)) => match a.checked_add(b) {
            Some(c) => Some(FieldValue::Int(c)),
            None => None,
        },
        (BinaryOperator::Sub, FieldValue::Int(a), FieldValue::Int(b)) => match a.checked_sub(b) {
            Some(c) => Some(FieldValue::Int(c)),
            None => None,
        },
        (BinaryOperator::Mul, FieldValue::Int(a), FieldValue::Int(b)) => match a.checked_mul(b) {
            Some(c) => Some(FieldValue::Int(c)),
            None => None,
        },
        (BinaryOperator::Div, FieldValue::Int(a), FieldValue::Int(b)) => match a.checked_div(b) {
            Some(c) => Some(FieldValue::Int(c)),
            None => None,
        },
        (BinaryOperator::Rem, FieldValue::Int(a), FieldValue::Int(b)) => match a.checked_rem(b) {
            Some(c) => Some(FieldValue::Int(c)),
            None => None,
        },
        _ => None,
    }
}

/// Evaluates an expression against the field bindings of a live instance,
/// exactly as [`eval_node`] describes.
pub fn eval(node: &ExpressionNode, env: &Vec<Binding>) -> (r: Option<FieldValue>)
    ensures
        r == eval_node(*node, env@),
    decreases *node,
{
    match node {
        ExpressionNode::Binary(op, l, r) => match op {
            BinaryOperator::And => match eval(l, env) {
                Some(FieldValue::Bool(false)) => Some(FieldValue::Bool(false)),
                Some(FieldValue::Bool(true)) => match eval(r, env) {
                    Some(FieldValue::Bool(b)) => Some(FieldValue::Bool(b)),
                    _ => None,
                },
                _ => None,
            },
            BinaryOperator::Or => match eval(l, env) {
                Some(FieldValue::Bool(true)) => Some(FieldValue::Bool(true)),
                Some(FieldValue::Bool(false)) => match eval(r, env) {
                    Some(FieldValue::Bool(b)) => Some(FieldValue::Bool(b)),
                    _ => None,
                },
                _ => None,
            },
            _ => match (eval(l, env), eval(r, env)) {
                (Some(lv), Some(rv)) => apply_binary_op(*op, lv, rv),
                _ => None,
            },
        },
        ExpressionNode::Unary(op, e) => match (op, eval(e, env)) {
            (UnaryOperator::Not, Some(FieldValue::Bool(b))) => Some(FieldValue::Bool(!b)),
            (UnaryOperator::Neg, Some(FieldValue::Int(i))) => if i == i64::MIN {
                None
            } else {
                Some(FieldValue::Int(-i))
            },
            _ => None,
        },
        ExpressionNode::FieldAccess(base, member) => {
            let base_is_self: bool = match &**base {
                ExpressionNode::Identifier(s) => *s == "self".to_owned(),
                _ => false,
            };
            match member {
                FieldMember::Named(f) if base_is_self => lookup_value(env, f),
                _ => None,
            }
        },
        ExpressionNode::Identifier(name) => lookup_value(env, name),
        ExpressionNode::Literal(lit) => match lit {
            LiteralValue::Int(n) => if *n <= i64::MAX as u64 {
                Some(FieldValue::Int(*n as i64))
            } else {
                None
            },
            LiteralValue::Bool(b) => Some(FieldValue::Bool(*b)),
            LiteralValue::Other(_) => None,
        },
    }
}

} // verus!

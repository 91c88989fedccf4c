//! The restricted expression grammar that invariant annotations may use.
//!
//! The grammar is a closed set of variants: comparisons, arithmetic, boolean
//! connectives, unary negation/not, single-level field access, identifiers
//! and integer/boolean literals.  Recognized-but-unsupported operators and
//! literal kinds are present as variants so that the translator can reject
//! them with a descriptive error instead of silently passing them through.

use vstd::prelude::*;

verus! {

/// A binary operator appearing in an invariant expression.
///
/// The first thirteen variants are supported by the translator; the bitwise
/// and shift operators are recognized but rejected with an error.
#[derive(Clone, Copy, PartialEq, Eq, Structural, Debug)]
pub enum BinaryOperator {
    Eq,
    Ne,
    Lt,
    Le,
    Gt,
    Ge,
    Add,
    Sub,
    Mul,
    Div,
    Rem,
    And,
    Or,
    BitXor,
    BitAnd,
    BitOr,
    Shl,
    Shr,
}

/// A unary operator.  `Not` and `Neg` are supported; `Deref` is recognized
/// but rejected by the translator.
#[derive(Clone, Copy, PartialEq, Eq, Structural, Debug)]
pub enum UnaryOperator {
    Not,
    Neg,
    Deref,
}

/// A literal value.  Integer and boolean literals are supported; `Other`
/// stands for any other literal kind (string, float, char, byte), carrying
/// its source text for diagnostics.
#[derive(PartialEq, Eq, Debug)]
pub enum LiteralValue {
    Int(u64),
    Bool(bool),
    Other(String),
}

/// The member named in a field access: `self.balance` names `Named`,
/// `self.0` names `Unnamed`.  Only named members are supported.
#[derive(PartialEq, Eq, Debug)]
pub enum FieldMember {
    Named(String),
    Unnamed(u64),
}

/// One node of an invariant expression.
///
/// Parenthesized sub-expressions are transparent: a frontend unwraps them
/// while building the tree, so no variant represents them.
#[derive(PartialEq, Eq, Debug)]
pub enum ExpressionNode {
    /// `left op right`
    Binary(BinaryOperator, Box<ExpressionNode>, Box<ExpressionNode>),
    /// `op operand`
    Unary(UnaryOperator, Box<ExpressionNode>),
    /// `base.member`; only `self.<named field>` is supported.
    FieldAccess(Box<ExpressionNode>, FieldMember),
    /// A bare identifier, `self` included.
    Identifier(String),
    /// A literal.
    Literal(LiteralValue),
}

} // verus!

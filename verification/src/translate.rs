//! Translation of invariant expressions into S-expression logic assertions.
//!
//! [`translate`] is a pure recursive function from one [`ExpressionNode`] to
//! a [`TranslationResult`]: either an S-expression string and no errors, or
//! an empty string and a non-empty error list.  Errors accumulate bottom-up:
//! a parent whose child failed fails too and produces no output, so no
//! assertion string is ever built around a blank placeholder.
//!
//! The spec functions [`translation`] and [`node_errors`] state exactly what
//! the output string and the error list are for every node.

use vstd::prelude::*;
use vstd::string::StringExecFns;
use crate::ast::{BinaryOperator, ExpressionNode, FieldMember, LiteralValue, UnaryOperator};

verus! {

/// The outcome of translating a single expression node: either `output` is
/// the S-expression and `errors` is empty, or `output` is empty and
/// `errors` is non-empty.
pub struct TranslationResult {
    pub output: String,
    pub errors: Vec<String>,
}

/// Whether the translator supports a binary operator.
pub open spec fn binary_supported(op: BinaryOperator) -> bool {
    match op {
        BinaryOperator::BitXor => false,
        BinaryOperator::BitAnd => false,
        BinaryOperator::BitOr => false,
        BinaryOperator::Shl => false,
        BinaryOperator::Shr => false,
        _ => true,
    }
}

/// The S-expression symbol of a supported binary operator.
pub open spec fn binary_symbol(op: BinaryOperator) -> Seq<char> {
    match op {
        BinaryOperator::Eq => "="@,
        BinaryOperator::Ne => "distinct"@,
        BinaryOperator::Lt => "<"@,
        BinaryOperator::Le => "<="@,
        BinaryOperator::Gt => ">"@,
        BinaryOperator::Ge => ">="@,
        BinaryOperator::Add => "+"@,
        BinaryOperator::Sub => "-"@,
        BinaryOperator::Mul => "*"@,
        BinaryOperator::Div => "/"@,
        BinaryOperator::Rem => "mod"@,
        BinaryOperator::And => "and"@,
        BinaryOperator::Or => "or"@,
        _ => Seq::empty(),
    }
}

/// The error message recorded for an unsupported binary operator.
pub open spec fn binary_error(op: BinaryOperator) -> Seq<char> {
    match op {
        BinaryOperator::BitXor => "Unsupported binary operator: ^"@,
        BinaryOperator::BitAnd => "Unsupported binary operator: &"@,
        BinaryOperator::BitOr => "Unsupported binary operator: |"@,
        BinaryOperator::Shl => "Unsupported binary operator: <<"@,
        BinaryOperator::Shr => "Unsupported binary operator: >>"@,
        _ => Seq::empty(),
    }
}

/// Whether the translator supports a unary operator.
pub open spec fn unary_supported(op: UnaryOperator) -> bool {
    match op {
        UnaryOperator::Not => true,
        UnaryOperator::Neg => true,
        UnaryOperator::Deref => false,
    }
}

/// The S-expression symbol of a supported unary operator.
pub open spec fn unary_symbol(op: UnaryOperator) -> Seq<char> {
    match op {
        UnaryOperator::Not => "not"@,
        UnaryOperator::Neg => "-"@,
        UnaryOperator::Deref => Seq::empty(),
    }
}

/// The error message recorded for an unsupported unary operator.
pub open spec fn unary_error() -> Seq<char> {
    "Unsupported unary operator: *"@
}

/// The error message recorded for a field access that is not `self.<field>`.
pub open spec fn field_error() -> Seq<char> {
    "Only self.field access is supported"@
}

/// The error message recorded for a literal that is neither an integer nor
/// a boolean.
pub open spec fn literal_error() -> Seq<char> {
    "Unsupported literal"@
}

/// Whether a field access has the one supported shape: base `self`, named
/// member.
pub open spec fn is_self_field(base: ExpressionNode, member: FieldMember) -> bool {
    &&& base matches ExpressionNode::Identifier(s) && s@ == "self"@
    &&& member matches FieldMember::Named(_)
}

/// The decimal text of a digit.
pub open spec fn digit_lit(d: nat) -> Seq<char> {
    if d == 0 {
        "0"@
    } else if d == 1 {
        "1"@
    } else if d == 2 {
        "2"@
    } else if d == 3 {
        "3"@
    } else if d == 4 {
        "4"@
    } else if d == 5 {
        "5"@
    } else if d == 6 {
        "6"@
    } else if d == 7 {
        "7"@
    } else if d == 8 {
        "8"@
    } else {
        "9"@
    }
}

/// The decimal text of a natural number, most significant digit first and
/// without leading zeros (`dec_seq(0)` is `"0"`).
pub open spec fn dec_seq(n: nat) -> Seq<char>
    decreases n,
{
    if n < 10 {
        digit_lit(n)
    } else {
        dec_seq(n / 10) + digit_lit(n % 10)
    }
}

/// The ordered error list produced by translating a node: the left child's
/// errors, then the right child's, then the node's own error if its
/// operator, path shape or literal kind is unsupported.
pub open spec fn node_errors(node: ExpressionNode) -> Seq<Seq<char>>
    decreases node,
{
    match node {
        ExpressionNode::Binary(op, l, r) => node_errors(*l) + node_errors(*r) + (if binary_supported(
            op,
        ) {
            Seq::<Seq<char>>::empty()
        } else {
            seq![binary_error(op)]
        }),
        ExpressionNode::Unary(op, e) => node_errors(*e) + (if unary_supported(op) {
            Seq::<Seq<char>>::empty()
        } else {
            seq![unary_error()]
        }),
        ExpressionNode::FieldAccess(base, member) => if is_self_field(*base, member) {
            Seq::<Seq<char>>::empty()
        } else {
            seq![field_error()]
        },
        ExpressionNode::Identifier(_) => Seq::<Seq<char>>::empty(),
        ExpressionNode::Literal(lit) => match lit {
            LiteralValue::Int(_) => Seq::<Seq<char>>::empty(),
            LiteralValue::Bool(_) => Seq::<Seq<char>>::empty(),
            LiteralValue::Other(_) => seq![literal_error()],
        },
    }
}

/// Whether translation of a node succeeds, that is, accumulates no error.
pub open spec fn translates(node: ExpressionNode) -> bool {
    node_errors(node).len() == 0
}

/// The S-expression a node translates to, meaningful when
/// [`translates`] holds of it.
pub open spec fn translation(node: ExpressionNode) -> Seq<char>
    decreases node,
{
    match node {
        ExpressionNode::Binary(op, l, r) => "("@ + binary_symbol(op) + " "@ + translation(*l)
            + " "@ + translation(*r) + ")"@,
        ExpressionNode::Unary(op, e) => "("@ + unary_symbol(op) + " "@ + translation(*e) + ")"@,
        ExpressionNode::FieldAccess(base, member) => if is_self_field(*base, member) {
            match member {
                FieldMember::Named(f) => f@,
                FieldMember::Unnamed(_) => Seq::<char>::empty(),
            }
        } else {
            Seq::<char>::empty()
        },
        ExpressionNode::Identifier(name) => name@,
        ExpressionNode::Literal(lit) => match lit {
            LiteralValue::Int(n) => dec_seq(n as nat),
            LiteralValue::Bool(b) => if b {
                "true"@
            } else {
                "false"@
            },
            LiteralValue::Other(_) => Seq::<char>::empty(),
        },
    }
}

/// The S-expression symbol of a binary operator, or `None` where the
/// operator is unsupported.
fn binary_symbol_str(op: BinaryOperator) -> (r: Option<&'static str>)
    ensures
        r is Some <==> binary_supported(op),
        r matches Some(s) ==> s@ == binary_symbol(op),
{
    match op {
        BinaryOperator::Eq => Some("="),
        BinaryOperator::Ne => Some("distinct"),
        BinaryOperator::Lt => Some("<"),
        BinaryOperator::Le => Some("<="),
        BinaryOperator::Gt => Some(">"),
        BinaryOperator::Ge => Some(">="),
        BinaryOperator::Add => Some("+"),
        BinaryOperator::Sub => Some("-"),
        BinaryOperator::Mul => Some("*"),
        BinaryOperator::Div => Some("/"),
        BinaryOperator::Rem => Some("mod"),
        BinaryOperator::And => Some("and"),
        BinaryOperator::Or => Some("or"),
        BinaryOperator::BitXor => None,
        BinaryOperator::BitAnd => None,
        BinaryOperator::BitOr => None,
        BinaryOperator::Shl => None,
        BinaryOperator::Shr => None,
    }
}

/// The error message for an unsupported binary operator.
fn binary_error_string(op: BinaryOperator) -> (r: String)
    requires
        !binary_supported(op),
    ensures
        r@ == binary_error(op),
{
    match op {
        BinaryOperator::BitXor => "Unsupported binary operator: ^".to_owned(),
        BinaryOperator::BitAnd => "Unsupported binary operator: &".to_owned(),
        BinaryOperator::BitOr => "Unsupported binary operator: |".to_owned(),
        BinaryOperator::Shl => "Unsupported binary operator: <<".to_owned(),
        _ => "Unsupported binary operator: >>".to_owned(),
    }
}

/// The decimal text of a single digit.
fn digit_str(d: u64) -> (r: &'static str)
    requires
        d < 10,
    ensures
        r@ == digit_lit(d as nat),
{
    if d == 0 {
        "0"
    } else if d == 1 {
        "1"
    } else if d == 2 {
        "2"
    } else if d == 3 {
        "3"
    } else if d == 4 {
        "4"
    } else if d == 5 {
        "5"
    } else if d == 6 {
        "6"
    } else if d == 7 {
        "7"
    } else if d == 8 {
        "8"
    } else {
        "9"
    }
}

/// Renders a number in decimal, as [`dec_seq`] describes.
pub fn u64_to_decimal(n: u64) -> (r: String)
    ensures
        r@ == dec_seq(n as nat),
    decreases n,
{
    if n < 10 {
        digit_str(n).to_owned()
    } else {
        let mut s = u64_to_decimal(n / 10);
        s.append(digit_str(n % 10));
        s
    }
}

/// Translates one expression node into an S-expression logic assertion.
///
/// On success `output` is exactly [`translation`] of the node and `errors`
/// is empty; on failure `output` is empty and `errors` is exactly
/// [`node_errors`] of the node.
pub fn translate(node: &ExpressionNode) -> (r: TranslationResult)
    ensures
        r.errors@.len() == node_errors(*node).len(),
        forall|i: int|
            0 <= i < r.errors@.len() ==> (#[trigger] r.errors@[i])@ == node_errors(*node)[i],
        translates(*node) ==> r.output@ == translation(*node),
        !translates(*node) ==> r.output@ == Seq::<char>::empty(),
    decreases *node,
{
    match node {
        ExpressionNode::Binary(op, l, r) => {
            let lt = translate(l);
            let rt = translate(r);
            let mut errors = lt.errors;
            let mut right_errors = rt.errors;
            errors.append(&mut right_errors);
            match binary_symbol_str(*op) {
                Some(sym) => {
                    if errors.len() > 0 {
                        proof {
                            assert(node_errors(*node) =~= node_errors(**l) + node_errors(**r));
                        }
                        TranslationResult { output: String::new(), errors }
                    } else {
                        let mut out = String::new();
                        out.append("(");
                        out.append(sym);
                        out.append(" ");
                        out.append(lt.output.as_str());
                        out.append(" ");
                        out.append(rt.output.as_str());
                        out.append(")");
                        proof {
                            assert(node_errors(*node) =~= node_errors(**l) + node_errors(**r));
                            assert(translates(**l) && translates(**r));
                            assert(out@ =~= translation(*node));
                        }
                        TranslationResult { output: out, errors }
                    }
                },
                None => {
                    errors.push(binary_error_string(*op));
                    proof {
                        assert(errors@.len() == node_errors(*node).len());
                    }
                    TranslationResult { output: String::new(), errors }
                },
            }
        },
        ExpressionNode::Unary(op, e) => {
            let et = translate(e);
            let mut errors = et.errors;
            match op {
                UnaryOperator::Deref => {
                    errors.push("Unsupported unary operator: *".to_owned());
                    TranslationResult { output: String::new(), errors }
                },
                _ => {
                    let sym: &'static str = if let UnaryOperator::Not = op {
                        "not"
                    } else {
                        "-"
                    };
                    proof {
                        assert(node_errors(*node) =~= node_errors(**e));
                        assert(sym@ == unary_symbol(*op));
                    }
                    if errors.len() > 0 {
                        TranslationResult { output: String::new(), errors }
                    } else {
                        let mut out = String::new();
                        out.append("(");
                        out.append(sym);
                        out.append(" ");
                        out.append(et.output.as_str());
                        out.append(")");
                        proof {
                            assert(out@ =~= translation(*node));
                        }
                        TranslationResult { output: out, errors }
                    }
                },
            }
        },
        ExpressionNode::FieldAccess(base, member) => {
            let base_is_self: bool = match &**base {
                ExpressionNode::Identifier(s) => *s == "self".to_owned(),
                _ => false,
            };
            match member {
                FieldMember::Named(f) if base_is_self => {
                    TranslationResult { output: f.clone(), errors: Vec::new() }
                },
                _ => {
                    let mut errors: Vec<String> = Vec::new();
                    errors.push("Only self.field access is supported".to_owned());
                    TranslationResult { output: String::new(), errors }
                },
            }
        },
        ExpressionNode::Identifier(name) => {
            TranslationResult { output: name.clone(), errors: Vec::new() }
        },
        ExpressionNode::Literal(lit) => match lit {
            LiteralValue::Int(n) => {
                TranslationResult { output: u64_to_decimal(*n), errors: Vec::new() }
            },
            LiteralValue::Bool(b) => {
                let text: &'static str = if *b {
                    "true"
                } else {
                    "false"
                };
                TranslationResult { output: text.to_owned(), errors: Vec::new() }
            },
            LiteralValue::Other(_) => {
                let mut errors: Vec<String> = Vec::new();
                errors.push("Unsupported literal".to_owned());
                TranslationResult { output: String::new(), errors }
            },
        },
    }
}

} // verus!

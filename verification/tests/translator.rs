use constitution::ast::{BinaryOperator, ExpressionNode, FieldMember, LiteralValue, UnaryOperator};
use constitution::translate::{translate, u64_to_decimal};
use constitution::visitor::InvariantVisitor;

fn ident(name: &str) -> ExpressionNode {
    ExpressionNode::Identifier(name.to_string())
}

fn self_field(name: &str) -> ExpressionNode {
    ExpressionNode::FieldAccess(
        Box::new(ident("self")),
        FieldMember::Named(name.to_string()),
    )
}

fn binary(op: BinaryOperator, l: ExpressionNode, r: ExpressionNode) -> ExpressionNode {
    ExpressionNode::Binary(op, Box::new(l), Box::new(r))
}

fn unary(op: UnaryOperator, e: ExpressionNode) -> ExpressionNode {
    ExpressionNode::Unary(op, Box::new(e))
}

fn int_lit(n: u64) -> ExpressionNode {
    ExpressionNode::Literal(LiteralValue::Int(n))
}

#[test]
fn binary_operator_symbols() {
    let cases: Vec<(BinaryOperator, &str)> = vec![
        (BinaryOperator::Eq, "(= a b)"),
        (BinaryOperator::Ne, "(distinct a b)"),
        (BinaryOperator::Lt, "(< a b)"),
        (BinaryOperator::Le, "(<= a b)"),
        (BinaryOperator::Gt, "(> a b)"),
        (BinaryOperator::Ge, "(>= a b)"),
        (BinaryOperator::Add, "(+ a b)"),
        (BinaryOperator::Sub, "(- a b)"),
        (BinaryOperator::Mul, "(* a b)"),
        (BinaryOperator::Div, "(/ a b)"),
        (BinaryOperator::Rem, "(mod a b)"),
        (BinaryOperator::And, "(and a b)"),
        (BinaryOperator::Or, "(or a b)"),
    ];
    for (op, expected) in cases {
        let r = translate(&binary(op, ident("a"), ident("b")));
        assert!(r.errors.is_empty());
        assert_eq!(r.output, expected);
    }
}

#[test]
fn nesting_is_preserved() {
    // (a + b) > c: the parenthesized sub-expression is structural, so the
    // tree has two operator nodes and the output two matched pairs.
    let node = binary(
        BinaryOperator::Gt,
        binary(BinaryOperator::Add, ident("a"), ident("b")),
        ident("c"),
    );
    let r = translate(&node);
    assert!(r.errors.is_empty());
    assert_eq!(r.output, "(> (+ a b) c)");
    assert_eq!(r.output.matches('(').count(), 2);
    assert_eq!(r.output.matches(')').count(), 2);
}

#[test]
fn self_field_becomes_bare_identifier() {
    let r = translate(&self_field("balance"));
    assert!(r.errors.is_empty());
    assert_eq!(r.output, "balance");
}

#[test]
fn non_self_base_is_rejected() {
    let node = ExpressionNode::FieldAccess(
        Box::new(ident("foo")),
        FieldMember::Named("bar".to_string()),
    );
    let r = translate(&node);
    assert_eq!(r.errors, vec!["Only self.field access is supported".to_string()]);
    assert_eq!(r.output, "");
}

#[test]
fn multi_level_field_is_rejected() {
    let node = ExpressionNode::FieldAccess(
        Box::new(self_field("a")),
        FieldMember::Named("b".to_string()),
    );
    let r = translate(&node);
    assert_eq!(r.errors, vec!["Only self.field access is supported".to_string()]);
    assert_eq!(r.output, "");
}

#[test]
fn tuple_member_is_rejected() {
    let node = ExpressionNode::FieldAccess(Box::new(ident("self")), FieldMember::Unnamed(0));
    let r = translate(&node);
    assert_eq!(r.errors, vec!["Only self.field access is supported".to_string()]);
    assert_eq!(r.output, "");
}

#[test]
fn unsupported_binary_operator_is_rejected() {
    let r = translate(&binary(BinaryOperator::BitXor, ident("a"), ident("b")));
    assert_eq!(r.errors, vec!["Unsupported binary operator: ^".to_string()]);
    assert_eq!(r.output, "");
}

#[test]
fn child_error_makes_parent_fail() {
    // The right child fails; the parent must produce no output at all,
    // not a string with a blank where the child's fragment would stand.
    let bad = ExpressionNode::Literal(LiteralValue::Other("\"text\"".to_string()));
    let r = translate(&binary(BinaryOperator::Add, ident("a"), bad));
    assert_eq!(r.errors, vec!["Unsupported literal".to_string()]);
    assert_eq!(r.output, "");
}

#[test]
fn errors_accumulate_left_right_operator() {
    let bad_lit = ExpressionNode::Literal(LiteralValue::Other("1.5".to_string()));
    let bad_field = ExpressionNode::FieldAccess(
        Box::new(ident("other")),
        FieldMember::Named("x".to_string()),
    );
    let r = translate(&binary(BinaryOperator::Shl, bad_lit, bad_field));
    assert_eq!(
        r.errors,
        vec![
            "Unsupported literal".to_string(),
            "Only self.field access is supported".to_string(),
            "Unsupported binary operator: <<".to_string(),
        ]
    );
    assert_eq!(r.output, "");
}

#[test]
fn unary_operators() {
    let r = translate(&unary(UnaryOperator::Not, ident("flag")));
    assert!(r.errors.is_empty());
    assert_eq!(r.output, "(not flag)");

    let r = translate(&unary(UnaryOperator::Neg, ident("x")));
    assert!(r.errors.is_empty());
    assert_eq!(r.output, "(- x)");

    let r = translate(&unary(UnaryOperator::Deref, ident("p")));
    assert_eq!(r.errors, vec!["Unsupported unary operator: *".to_string()]);
    assert_eq!(r.output, "");
}

#[test]
fn integer_and_boolean_literals() {
    assert_eq!(translate(&int_lit(0)).output, "0");
    assert_eq!(translate(&int_lit(42)).output, "42");
    assert_eq!(translate(&int_lit(u64::MAX)).output, "18446744073709551615");
    let r = translate(&ExpressionNode::Literal(LiteralValue::Bool(true)));
    assert_eq!(r.output, "true");
    let r = translate(&ExpressionNode::Literal(LiteralValue::Bool(false)));
    assert_eq!(r.output, "false");
}

#[test]
fn decimal_rendering() {
    assert_eq!(u64_to_decimal(0), "0");
    assert_eq!(u64_to_decimal(7), "7");
    assert_eq!(u64_to_decimal(12345), "12345");
    assert_eq!(u64_to_decimal(1000), "1000");
}

#[test]
fn concrete_balance_invariant() {
    // invariant `self.balance >= 0` becomes the logic assertion
    // `(>= balance 0)`.
    let node = binary(BinaryOperator::Ge, self_field("balance"), int_lit(0));
    let r = translate(&node);
    assert!(r.errors.is_empty());
    assert_eq!(r.output, "(>= balance 0)");
}

#[test]
fn concrete_sum_invariant() {
    // invariant `self.a + self.b > self.c` becomes `(> (+ a b) c)`.
    let node = binary(
        BinaryOperator::Gt,
        binary(BinaryOperator::Add, self_field("a"), self_field("b")),
        self_field("c"),
    );
    let r = translate(&node);
    assert!(r.errors.is_empty());
    assert_eq!(r.output, "(> (+ a b) c)");
}

#[test]
fn visitor_starts_empty() {
    let v = InvariantVisitor::new();
    assert_eq!(v.smt_output, "");
    assert!(v.errors.is_empty());
}

#[test]
fn visitor_translates_and_accumulates() {
    let mut v = InvariantVisitor::new();
    v.visit_expr(&binary(BinaryOperator::Lt, ident("a"), ident("b")));
    assert_eq!(v.smt_output, "(< a b)");
    assert!(v.errors.is_empty());

    v.visit_expr(&binary(BinaryOperator::BitOr, ident("a"), ident("b")));
    assert_eq!(v.smt_output, "");
    assert_eq!(v.errors, vec!["Unsupported binary operator: |".to_string()]);

    // A second failing visit appends to the already accumulated errors.
    v.visit_expr(&ExpressionNode::Literal(LiteralValue::Other("'c'".to_string())));
    assert_eq!(
        v.errors,
        vec![
            "Unsupported binary operator: |".to_string(),
            "Unsupported literal".to_string(),
        ]
    );
}

#[test]
fn visit_subexpr_returns_fragment() {
    let mut v = InvariantVisitor::new();
    let out = v.visit_subexpr(&ident("x"));
    assert_eq!(out, "x");
    assert!(v.errors.is_empty());

    let out = v.visit_subexpr(&unary(UnaryOperator::Deref, ident("p")));
    assert_eq!(out, "");
    assert_eq!(v.errors, vec!["Unsupported unary operator: *".to_string()]);
}

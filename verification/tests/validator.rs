use constitution::ast::{BinaryOperator, ExpressionNode, FieldMember, LiteralValue};
use constitution::eval::{eval, Binding, FieldValue};
use constitution::generate::{
    extract_invariants, AnnotatedType, Annotation, ConstitutionError, FieldDeclaration,
    GenerationError,
};

fn ident(name: &str) -> ExpressionNode {
    ExpressionNode::Identifier(name.to_string())
}

fn self_field(name: &str) -> ExpressionNode {
    ExpressionNode::FieldAccess(
        Box::new(ident("self")),
        FieldMember::Named(name.to_string()),
    )
}

fn binary(op: BinaryOperator, l: ExpressionNode, r: ExpressionNode) -> ExpressionNode {
    ExpressionNode::Binary(op, Box::new(l), Box::new(r))
}

fn int_lit(n: u64) -> ExpressionNode {
    ExpressionNode::Literal(LiteralValue::Int(n))
}

fn annotation(source: &str, ast: ExpressionNode) -> Annotation {
    Annotation { source: source.to_string(), ast }
}

fn field(name: &str, declared_type: &str) -> FieldDeclaration {
    FieldDeclaration { name: name.to_string(), declared_type: declared_type.to_string() }
}

fn bind(name: &str, value: FieldValue) -> Binding {
    Binding { name: name.to_string(), value }
}

fn balance_type() -> AnnotatedType {
    AnnotatedType::new(
        "Account".to_string(),
        vec![field("balance", "i64")],
        vec![annotation(
            "self.balance >= 0",
            binary(BinaryOperator::Ge, self_field("balance"), int_lit(0)),
        )],
    )
}

#[test]
fn zero_invariants_always_succeed() {
    let t = AnnotatedType::new("Unit".to_string(), vec![field("x", "i64")], vec![]);
    let empty_env: Vec<Binding> = vec![];
    assert!(t.enforce_law(&empty_env).is_ok());
    assert!(t.enforce_law(&vec![bind("x", FieldValue::Int(-100))]).is_ok());
}

#[test]
fn first_violation_is_reported_alone() {
    // Both invariants are violated; only the first is reported.
    let t = AnnotatedType::new(
        "Pair".to_string(),
        vec![field("a", "i64"), field("b", "i64")],
        vec![
            annotation("self.a > 0", binary(BinaryOperator::Gt, self_field("a"), int_lit(0))),
            annotation("self.b > 0", binary(BinaryOperator::Gt, self_field("b"), int_lit(0))),
        ],
    );
    let env = vec![bind("a", FieldValue::Int(-1)), bind("b", FieldValue::Int(-2))];
    match t.enforce_law(&env) {
        Err(ConstitutionError::InvariantViolation { expression, values }) => {
            assert_eq!(expression, "self.a > 0");
            assert!(values.is_empty());
        }
        Ok(()) => panic!("expected a violation"),
    }
}

#[test]
fn negative_balance_names_the_invariant() {
    let t = balance_type();
    let env = vec![bind("balance", FieldValue::Int(-5))];
    match t.enforce_law(&env) {
        Err(ConstitutionError::InvariantViolation { expression, .. }) => {
            assert_eq!(expression, "self.balance >= 0");
        }
        Ok(()) => panic!("expected a violation"),
    }
}

#[test]
fn satisfied_invariant_passes() {
    let t = balance_type();
    let env = vec![bind("balance", FieldValue::Int(3))];
    assert!(t.enforce_law(&env).is_ok());
}

#[test]
fn obligation_lines_are_emitted() {
    let t = balance_type();
    let contract = t.generate().expect("generation succeeds");
    assert_eq!(contract.obligations, vec!["(assert (>= balance 0))".to_string()]);
}

#[test]
fn sum_invariant_obligation() {
    let t = AnnotatedType::new(
        "Triple".to_string(),
        vec![field("a", "i64"), field("b", "i64"), field("c", "i64")],
        vec![annotation(
            "self.a + self.b > self.c",
            binary(
                BinaryOperator::Gt,
                binary(BinaryOperator::Add, self_field("a"), self_field("b")),
                self_field("c"),
            ),
        )],
    );
    let contract = t.generate().expect("generation succeeds");
    assert_eq!(contract.obligations, vec!["(assert (> (+ a b) c))".to_string()]);
}

#[test]
fn unsupported_operator_halts_generation() {
    let t = AnnotatedType::new(
        "Flags".to_string(),
        vec![field("bits", "i64")],
        vec![annotation(
            "self.bits ^ 1 == 0",
            binary(
                BinaryOperator::Eq,
                binary(BinaryOperator::BitXor, self_field("bits"), int_lit(1)),
                int_lit(0),
            ),
        )],
    );
    match t.generate() {
        Err(GenerationError::UnsupportedConstruct { source, errors }) => {
            assert_eq!(source, "self.bits ^ 1 == 0");
            assert_eq!(errors, vec!["Unsupported binary operator: ^".to_string()]);
        }
        _ => panic!("expected generation to halt"),
    }
}

#[test]
fn unresolved_field_halts_generation() {
    let t = AnnotatedType::new(
        "Account".to_string(),
        vec![field("balance", "i64")],
        vec![annotation("self.qty > 0", binary(BinaryOperator::Gt, self_field("qty"), int_lit(0)))],
    );
    match t.generate() {
        Err(GenerationError::UnresolvedField { source, field }) => {
            assert_eq!(source, "self.qty > 0");
            assert_eq!(field, "qty");
        }
        _ => panic!("expected an unresolved-field error"),
    }
}

#[test]
fn invariant_texts_are_exposed_in_order() {
    let t = AnnotatedType::new(
        "Pair".to_string(),
        vec![field("a", "i64"), field("b", "i64")],
        vec![
            annotation("self.a > 0", binary(BinaryOperator::Gt, self_field("a"), int_lit(0))),
            annotation("self.b > 0", binary(BinaryOperator::Gt, self_field("b"), int_lit(0))),
        ],
    );
    assert_eq!(
        t.invariant_expressions(),
        vec!["self.a > 0".to_string(), "self.b > 0".to_string()]
    );
    let contract = t.generate().expect("generation succeeds");
    assert_eq!(
        contract.obligations,
        vec!["(assert (> a 0))".to_string(), "(assert (> b 0))".to_string()]
    );
}

#[test]
fn extraction_keeps_every_annotation() {
    let invs = extract_invariants(vec![
        annotation("self.a > 0", binary(BinaryOperator::Gt, self_field("a"), int_lit(0))),
        annotation(
            "self.a == garbage",
            binary(BinaryOperator::Eq, self_field("a"), ident("garbage")),
        ),
    ]);
    assert_eq!(invs.len(), 2);
    assert_eq!(invs[0].source, "self.a > 0");
    assert!(invs[0].translated.is_some());
    assert!(invs[0].errors.is_empty());
    assert_eq!(invs[1].translated.as_deref(), Some("(= a garbage)"));
}

#[test]
fn malformed_annotation_keeps_its_errors() {
    let invs = extract_invariants(vec![annotation(
        "self.a ** 2",
        ExpressionNode::Unary(
            constitution::ast::UnaryOperator::Deref,
            Box::new(self_field("a")),
        ),
    )]);
    assert_eq!(invs.len(), 1);
    assert!(invs[0].translated.is_none());
    assert_eq!(invs[0].errors, vec!["Unsupported unary operator: *".to_string()]);
}

#[test]
fn evaluation_uses_truncating_division() {
    // -7 / 2 truncates toward zero, and -7 % 2 keeps the dividend's sign.
    let env = vec![bind("x", FieldValue::Int(-7))];
    let div = binary(BinaryOperator::Div, self_field("x"), int_lit(2));
    assert_eq!(eval(&div, &env), Some(FieldValue::Int(-3)));
    let rem = binary(BinaryOperator::Rem, self_field("x"), int_lit(2));
    assert_eq!(eval(&rem, &env), Some(FieldValue::Int(-1)));
}

#[test]
fn overflow_counts_as_violation() {
    let t = AnnotatedType::new(
        "Counter".to_string(),
        vec![field("x", "i64")],
        vec![annotation(
            "self.x + 1 > 0",
            binary(
                BinaryOperator::Gt,
                binary(BinaryOperator::Add, self_field("x"), int_lit(1)),
                int_lit(0),
            ),
        )],
    );
    let env = vec![bind("x", FieldValue::Int(i64::MAX))];
    match t.enforce_law(&env) {
        Err(ConstitutionError::InvariantViolation { expression, .. }) => {
            assert_eq!(expression, "self.x + 1 > 0");
        }
        Ok(()) => panic!("overflowing evaluation must not count as success"),
    }
}

#[test]
fn division_by_zero_counts_as_violation() {
    let env = vec![bind("y", FieldValue::Int(0))];
    let div = binary(BinaryOperator::Div, int_lit(1), self_field("y"));
    assert_eq!(eval(&div, &env), None);
}

#[test]
fn boolean_connectives_short_circuit() {
    // true || (1 / y > 0) holds even with y = 0.
    let env = vec![bind("flag", FieldValue::Bool(true)), bind("y", FieldValue::Int(0))];
    let guarded = binary(
        BinaryOperator::Or,
        self_field("flag"),
        binary(
            BinaryOperator::Gt,
            binary(BinaryOperator::Div, int_lit(1), self_field("y")),
            int_lit(0),
        ),
    );
    assert_eq!(eval(&guarded, &env), Some(FieldValue::Bool(true)));

    // false && (1 / y > 0) is false, not an evaluation error.
    let env = vec![bind("flag", FieldValue::Bool(false)), bind("y", FieldValue::Int(0))];
    let guarded = binary(
        BinaryOperator::And,
        self_field("flag"),
        binary(
            BinaryOperator::Gt,
            binary(BinaryOperator::Div, int_lit(1), self_field("y")),
            int_lit(0),
        ),
    );
    assert_eq!(eval(&guarded, &env), Some(FieldValue::Bool(false)));
}

#[test]
fn unbound_name_counts_as_violation() {
    let env = vec![bind("a", FieldValue::Int(1))];
    assert_eq!(eval(&self_field("missing"), &env), None);
    assert_eq!(eval(&ident("missing"), &env), None);
}

#[test]
fn first_binding_wins() {
    let env = vec![bind("x", FieldValue::Int(1)), bind("x", FieldValue::Int(2))];
    assert_eq!(eval(&self_field("x"), &env), Some(FieldValue::Int(1)));
}

//! The library's stated laws, proved once and for all inputs.
//!
//! Each proof function here records one guarantee of the translator or of
//! the runtime validator over the spec functions that the executable
//! functions' contracts use, so a reader sees the guarantee stated rather
//! than having to derive it.

use vstd::prelude::*;
use crate::ast::{BinaryOperator, ExpressionNode, FieldMember, LiteralValue, UnaryOperator};
use crate::eval::Binding;
use crate::generate::{enforce_post, invariant_holds, AnnotatedType, ConstitutionError};
use crate::translate::{
    binary_error, binary_supported, binary_symbol, dec_seq, digit_lit, field_error, is_self_field,
    node_errors, translates, translation, unary_supported, unary_symbol,
};

verus! {

/// For every supported binary operator, the translation of `l op r` is
/// exactly the operator's symbol applied to the children's translations:
/// `(sym l' r')`.
pub proof fn lemma_binary_translation(op: BinaryOperator, l: ExpressionNode, r: ExpressionNode)
    requires
        binary_supported(op),
        translates(l),
        translates(r),
    ensures
        translates(ExpressionNode::Binary(op, Box::new(l), Box::new(r))),
        translation(ExpressionNode::Binary(op, Box::new(l), Box::new(r))) == "("@ + binary_symbol(
            op,
        ) + " "@ + translation(l) + " "@ + translation(r) + ")"@,
{
}

/// For every supported unary operator, the translation of `op e` is
/// exactly `(sym e')` where `e'` is the child's translation.
pub proof fn lemma_unary_translation(op: UnaryOperator, e: ExpressionNode)
    requires
        unary_supported(op),
        translates(e),
    ensures
        translates(ExpressionNode::Unary(op, Box::new(e))),
        translation(ExpressionNode::Unary(op, Box::new(e))) == "("@ + unary_symbol(op) + " "@
            + translation(e) + ")"@,
{
}

/// `self.<field>` translates to the bare field identifier; every other
/// field-access shape is rejected with exactly one error, so (by
/// `translate`'s contract) it produces no output.
pub proof fn lemma_field_access_translation(base: ExpressionNode, member: FieldMember)
    ensures
        is_self_field(base, member) ==> translates(
            ExpressionNode::FieldAccess(Box::new(base), member),
        ),
        is_self_field(base, member) ==> (member matches FieldMember::Named(f) ==> translation(
            ExpressionNode::FieldAccess(Box::new(base), member),
        ) == f@),
        !is_self_field(base, member) ==> !translates(
            ExpressionNode::FieldAccess(Box::new(base), member),
        ) && node_errors(ExpressionNode::FieldAccess(Box::new(base), member)) == seq![
            field_error(),
        ],
{
}

/// Errors accumulate bottom-up: a binary node over a failing child fails
/// itself, and the child's errors stand unchanged at the front of the
/// parent's error list (the right child's after all of the left's); by
/// `translate`'s contract the parent then produces no output.
pub proof fn lemma_binary_child_error_propagates(
    op: BinaryOperator,
    l: ExpressionNode,
    r: ExpressionNode,
)
    requires
        !translates(l) || !translates(r),
    ensures
        !translates(ExpressionNode::Binary(op, Box::new(l), Box::new(r))),
        node_errors(ExpressionNode::Binary(op, Box::new(l), Box::new(r))).len() > 0,
        forall|i: int|
            0 <= i < node_errors(l).len() ==> node_errors(
                ExpressionNode::Binary(op, Box::new(l), Box::new(r)),
            )[i] == node_errors(l)[i],
        forall|i: int|
            0 <= i < node_errors(r).len() ==> node_errors(
                ExpressionNode::Binary(op, Box::new(l), Box::new(r)),
            )[node_errors(l).len() + i] == node_errors(r)[i],
{
}

/// The unary form of the same law: a failing operand fails the node, its
/// errors standing unchanged at the front of the node's list.
pub proof fn lemma_unary_child_error_propagates(op: UnaryOperator, e: ExpressionNode)
    requires
        !translates(e),
    ensures
        !translates(ExpressionNode::Unary(op, Box::new(e))),
        node_errors(ExpressionNode::Unary(op, Box::new(e))).len() > 0,
        forall|i: int|
            0 <= i < node_errors(e).len() ==> node_errors(ExpressionNode::Unary(op, Box::new(e)))[i]
                == node_errors(e)[i],
{
}

/// The number of operator nodes (binary or unary) in an expression.
pub open spec fn op_nodes(node: ExpressionNode) -> nat
    decreases node,
{
    match node {
        ExpressionNode::Binary(_, l, r) => 1 + op_nodes(*l) + op_nodes(*r),
        ExpressionNode::Unary(_, e) => 1 + op_nodes(*e),
        ExpressionNode::FieldAccess(_, _) => 0,
        ExpressionNode::Identifier(_) => 0,
        ExpressionNode::Literal(_) => 0,
    }
}

/// The number of occurrences of `c` in `s`.
pub open spec fn count_char(s: Seq<char>, c: char) -> nat
    decreases s.len(),
{
    if s.len() == 0 {
        0
    } else {
        (if s[0] == c {
            1nat
        } else {
            0nat
        }) + count_char(s.drop_first(), c)
    }
}

/// Whether a text holds neither parenthesis character.
pub open spec fn paren_free(s: Seq<char>) -> bool {
    forall|i: int| 0 <= i < s.len() ==> s[i] != '(' && s[i] != ')'
}

/// Whether the leaf texts of an expression — identifiers and field names
/// — hold no parenthesis character.
pub open spec fn atoms_paren_free(node: ExpressionNode) -> bool
    decreases node,
{
    match node {
        ExpressionNode::Binary(_, l, r) => atoms_paren_free(*l) && atoms_paren_free(*r),
        ExpressionNode::Unary(_, e) => atoms_paren_free(*e),
        ExpressionNode::FieldAccess(_, member) => match member {
            FieldMember::Named(f) => paren_free(f@),
            FieldMember::Unnamed(_) => true,
        },
        ExpressionNode::Identifier(n) => paren_free(n@),
        ExpressionNode::Literal(_) => true,
    }
}

/// Counting a character distributes over concatenation.
pub proof fn lemma_count_char_add(a: Seq<char>, b: Seq<char>, c: char)
    ensures
        count_char(a + b, c) == count_char(a, c) + count_char(b, c),
    decreases a.len(),
{
    if a.len() == 0 {
        assert(a + b =~= b);
    } else {
        assert((a + b).drop_first() =~= a.drop_first() + b);
        lemma_count_char_add(a.drop_first(), b, c);
        assert((a + b)[0] == a[0]);
    }
}

/// A text without occurrences of `c` counts zero of it.
pub proof fn lemma_count_char_zero(s: Seq<char>, c: char)
    requires
        forall|i: int| 0 <= i < s.len() ==> s[i] != c,
    ensures
        count_char(s, c) == 0,
    decreases s.len(),
{
    if s.len() > 0 {
        lemma_count_char_zero(s.drop_first(), c);
    }
}

/// The count in a one-character text.
pub proof fn lemma_count_char_single(s: Seq<char>, c: char)
    requires
        s.len() == 1,
    ensures
        count_char(s, c) == (if s[0] == c {
            1nat
        } else {
            0nat
        }),
{
    assert(count_char(s.drop_first(), c) == 0);
}

proof fn lemma_paren_free_counts(s: Seq<char>)
    requires
        paren_free(s),
    ensures
        count_char(s, '(') == 0,
        count_char(s, ')') == 0,
{
    lemma_count_char_zero(s, '(');
    lemma_count_char_zero(s, ')');
}

proof fn lemma_symbol_paren_free(op: BinaryOperator)
    ensures
        paren_free(binary_symbol(op)),
{
    reveal_strlit("=");
    reveal_strlit("distinct");
    reveal_strlit("<");
    reveal_strlit("<=");
    reveal_strlit(">");
    reveal_strlit(">=");
    reveal_strlit("+");
    reveal_strlit("-");
    reveal_strlit("*");
    reveal_strlit("/");
    reveal_strlit("mod");
    reveal_strlit("and");
    reveal_strlit("or");
}

proof fn lemma_unary_symbol_paren_free(op: UnaryOperator)
    ensures
        paren_free(unary_symbol(op)),
{
    reveal_strlit("not");
    reveal_strlit("-");
}

proof fn lemma_digit_lit_paren_free(d: nat)
    ensures
        paren_free(digit_lit(d)),
{
    reveal_strlit("0");
    reveal_strlit("1");
    reveal_strlit("2");
    reveal_strlit("3");
    reveal_strlit("4");
    reveal_strlit("5");
    reveal_strlit("6");
    reveal_strlit("7");
    reveal_strlit("8");
    reveal_strlit("9");
}

proof fn lemma_paren_free_add(a: Seq<char>, b: Seq<char>)
    requires
        paren_free(a),
        paren_free(b),
    ensures
        paren_free(a + b),
{
    assert forall|i: int| 0 <= i < (a + b).len() implies (a + b)[i] != '(' && (a + b)[i]
        != ')' by {
        if i < a.len() {
            assert((a + b)[i] == a[i]);
        } else {
            assert((a + b)[i] == b[i - a.len()]);
        }
    }
}

proof fn lemma_dec_seq_paren_free(n: nat)
    ensures
        paren_free(dec_seq(n)),
    decreases n,
{
    if n < 10 {
        lemma_digit_lit_paren_free(n);
    } else {
        lemma_dec_seq_paren_free(n / 10);
        lemma_digit_lit_paren_free(n % 10);
        lemma_paren_free_add(dec_seq(n / 10), digit_lit(n % 10));
    }
}

/// Nesting is preserved: a successful translation of an expression whose
/// identifiers and field names hold no parenthesis character has exactly
/// one `(` and one `)` per operator node of the tree.
pub proof fn lemma_paren_count(node: ExpressionNode)
    requires
        translates(node),
        atoms_paren_free(node),
    ensures
        count_char(translation(node), '(') == op_nodes(node),
        count_char(translation(node), ')') == op_nodes(node),
    decreases node,
{
    reveal_strlit("(");
    reveal_strlit(")");
    reveal_strlit(" ");
    match node {
        ExpressionNode::Binary(op, l, r) => {
            lemma_paren_count(*l);
            lemma_paren_count(*r);
            lemma_symbol_paren_free(op);
            let a1 = "("@;
            let a2 = a1 + binary_symbol(op);
            let a3 = a2 + " "@;
            let a4 = a3 + translation(*l);
            let a5 = a4 + " "@;
            let a6 = a5 + translation(*r);
            let a7 = a6 + ")"@;
            assert(translation(node) == a7);
            lemma_count_char_single("("@, '(');
            lemma_count_char_single("("@, ')');
            lemma_count_char_single(")"@, '(');
            lemma_count_char_single(")"@, ')');
            lemma_count_char_single(" "@, '(');
            lemma_count_char_single(" "@, ')');
            lemma_paren_free_counts(binary_symbol(op));
            lemma_count_char_add(a1, binary_symbol(op), '(');
            lemma_count_char_add(a1, binary_symbol(op), ')');
            lemma_count_char_add(a2, " "@, '(');
            lemma_count_char_add(a2, " "@, ')');
            lemma_count_char_add(a3, translation(*l), '(');
            lemma_count_char_add(a3, translation(*l), ')');
            lemma_count_char_add(a4, " "@, '(');
            lemma_count_char_add(a4, " "@, ')');
            lemma_count_char_add(a5, translation(*r), '(');
            lemma_count_char_add(a5, translation(*r), ')');
            lemma_count_char_add(a6, ")"@, '(');
            lemma_count_char_add(a6, ")"@, ')');
        },
        ExpressionNode::Unary(op, e) => {
            lemma_paren_count(*e);
            lemma_unary_symbol_paren_free(op);
            let a1 = "("@;
            let a2 = a1 + unary_symbol(op);
            let a3 = a2 + " "@;
            let a4 = a3 + translation(*e);
            let a5 = a4 + ")"@;
            assert(translation(node) == a5);
            lemma_count_char_single("("@, '(');
            lemma_count_char_single("("@, ')');
            lemma_count_char_single(")"@, '(');
            lemma_count_char_single(")"@, ')');
            lemma_count_char_single(" "@, '(');
            lemma_count_char_single(" "@, ')');
            lemma_paren_free_counts(unary_symbol(op));
            lemma_count_char_add(a1, unary_symbol(op), '(');
            lemma_count_char_add(a1, unary_symbol(op), ')');
            lemma_count_char_add(a2, " "@, '(');
            lemma_count_char_add(a2, " "@, ')');
            lemma_count_char_add(a3, translation(*e), '(');
            lemma_count_char_add(a3, translation(*e), ')');
            lemma_count_char_add(a4, ")"@, '(');
            lemma_count_char_add(a4, ")"@, ')');
        },
        ExpressionNode::FieldAccess(base, member) => {
            match member {
                FieldMember::Named(f) => {
                    lemma_paren_free_counts(f@);
                },
                FieldMember::Unnamed(_) => {
                    lemma_paren_free_counts(Seq::<char>::empty());
                },
            }
        },
        ExpressionNode::Identifier(n) => {
            lemma_paren_free_counts(n@);
        },
        ExpressionNode::Literal(lit) => {
            match lit {
                LiteralValue::Int(n) => {
                    lemma_dec_seq_paren_free(n as nat);
                    lemma_paren_free_counts(dec_seq(n as nat));
                },
                LiteralValue::Bool(b) => {
                    reveal_strlit("true");
                    reveal_strlit("false");
                    if b {
                        lemma_paren_free_counts("true"@);
                    } else {
                        lemma_paren_free_counts("false"@);
                    }
                },
                LiteralValue::Other(_) => {
                    assert(false);
                },
            }
        },
    }
}

/// A type with zero invariants: any result the validator's contract
/// admits is a success, so `enforce_law` always succeeds on such a type.
pub proof fn lemma_empty_type_always_valid(
    t: AnnotatedType,
    env: Seq<Binding>,
    r: Result<(), ConstitutionError>,
)
    requires
        t.invariants@.len() == 0,
        enforce_post(t, env, r),
    ensures
        r is Ok,
{
}

/// When the first invariant is violated, any result the validator's
/// contract admits is a violation naming that invariant's source text —
/// in particular, an instance violating both of a type's two invariants
/// is reported for the first alone.
pub proof fn lemma_first_violation_reported(
    t: AnnotatedType,
    env: Seq<Binding>,
    r: Result<(), ConstitutionError>,
)
    requires
        t.invariants@.len() > 0,
        !invariant_holds(t.invariants@[0], env),
        enforce_post(t, env, r),
    ensures
        r matches Err(e) && (e matches ConstitutionError::InvariantViolation { expression, .. }
            && expression@ == t.invariants@[0].source@),
{
    match r {
        Ok(_) => {
            assert(invariant_holds(t.invariants@[0], env));
        },
        Err(e) => {
            let i = choose|i: int|
                0 <= i < t.invariants@.len() && !invariant_holds(
                    #[trigger] t.invariants@[i],
                    env,
                ) && (forall|j: int|
                    0 <= j < i ==> invariant_holds(#[trigger] t.invariants@[j], env)) && (
                e matches ConstitutionError::InvariantViolation { expression, values } && expression@
                    == t.invariants@[i].source@ && values@.len() == 0);
            assert(i == 0);
        },
    }
}

} // verus!

//! Invariant collection, validator generation and runtime enforcement.
//!
//! An [`AnnotatedType`] gathers one [`InvariantExpression`] per annotation
//! of a type declaration.  [`AnnotatedType::generate`] produces the
//! build-time artifact: one `(assert <logic>)` proof-obligation line per
//! invariant, or the first terminal error, which halts generation for the
//! whole type.  [`AnnotatedType::enforce_law`] is the runtime validator:
//! it evaluates the invariants in declaration order against a live
//! instance's field bindings and reports the first violation.

use vstd::prelude::*;
use vstd::string::StringExecFns;
use crate::ast::{ExpressionNode, FieldMember};
use crate::eval::{eval, eval_node, Binding, FieldValue};
use crate::translate::{is_self_field, node_errors, translate, translates, translation};

verus! {

/// One invariant annotation of a type: its source text for diagnostics and
/// its parsed expression.
pub struct Annotation {
    pub source: String,
    pub ast: ExpressionNode,
}

/// One invariant of a type, with the outcome of its translation: exactly
/// one of `translated` and a non-empty `errors` is present.
pub struct InvariantExpression {
    /// The annotation's source text, kept for diagnostics.
    pub source: String,
    /// The parsed expression.
    pub ast: ExpressionNode,
    /// The S-expression logic string, present exactly when translation
    /// succeeded.
    pub translated: Option<String>,
    /// The translation errors, non-empty exactly when translation failed.
    pub errors: Vec<String>,
}

impl InvariantExpression {
    /// `translated` and `errors` agree exactly with what the translator
    /// says of `ast`: one logic string and no errors, or no logic string
    /// and at least one error.
    pub open spec fn wf(self) -> bool {
        &&& self.translated is Some <==> translates(self.ast)
        &&& (self.translated matches Some(t) ==> t@ == translation(self.ast))
        &&& self.errors@.len() == node_errors(self.ast).len()
        &&& forall|i: int|
            0 <= i < self.errors@.len() ==> (#[trigger] self.errors@[i])@ == node_errors(
                self.ast,
            )[i]
    }

    /// Translates one annotation into an invariant record.
    pub fn new(source: String, ast: ExpressionNode) -> (r: Self)
        ensures
            r.wf(),
            r.source == source,
            r.ast == ast,
    {
        let t = translate(&ast);
        if t.errors.len() == 0 {
            Self { source, ast, translated: Some(t.output), errors: t.errors }
        } else {
            Self { source, ast, translated: None, errors: t.errors }
        }
    }
}

/// One declared field of the annotated type: its name and the text of its
/// declared type.
pub struct FieldDeclaration {
    pub name: String,
    pub declared_type: String,
}

/// The names of the declared fields, in declaration order.
pub open spec fn declared_names(fields: Seq<FieldDeclaration>) -> Seq<Seq<char>> {
    fields.map_values(|f: FieldDeclaration| f.name@)
}

/// The first `self.<field>` access in `node` (left to right, depth first)
/// whose field is not among `names`, or `None` if every such access
/// resolves.
pub open spec fn first_unresolved(node: ExpressionNode, names: Seq<Seq<char>>) -> Option<Seq<char>>
    decreases node,
{
    match node {
        ExpressionNode::Binary(_, l, r) => match first_unresolved(*l, names) {
            Some(f) => Some(f),
            None => first_unresolved(*r, names),
        },
        ExpressionNode::Unary(_, e) => first_unresolved(*e, names),
        ExpressionNode::FieldAccess(base, member) => if is_self_field(*base, member) {
            match member {
                FieldMember::Named(f) => if names.contains(f@) {
                    None
                } else {
                    Some(f@)
                },
                FieldMember::Unnamed(_) => None,
            }
        } else {
            None
        },
        ExpressionNode::Identifier(_) => None,
        ExpressionNode::Literal(_) => None,
    }
}

/// Whether every `self.<field>` access in `node` names a declared field.
pub open spec fn refs_resolved(node: ExpressionNode, names: Seq<Seq<char>>) -> bool {
    first_unresolved(node, names) is None
}

/// Whether an invariant passes generation: it translates and its field
/// references resolve.
pub open spec fn invariant_good(inv: InvariantExpression, names: Seq<Seq<char>>) -> bool {
    translates(inv.ast) && refs_resolved(inv.ast, names)
}

/// The proof-obligation line emitted for one translated invariant.
pub open spec fn obligation_line(node: ExpressionNode) -> Seq<char> {
    "(assert "@ + translation(node) + ")"@
}

/// Whether an invariant holds of a live instance: its expression evaluates
/// to `true` in the instance's field environment.
pub open spec fn invariant_holds(inv: InvariantExpression, env: Seq<Binding>) -> bool {
    eval_node(inv.ast, env) == Some(FieldValue::Bool(true))
}

/// A terminal build-time error: generation for the enclosing type halts,
/// and no partial validator is emitted.
#[derive(Debug)]
pub enum GenerationError {
    /// The annotation payload was not parsable as an expression.  The
    /// frontend that parses annotations reports it through this variant.
    AnnotationParse { source: String, detail: String },
    /// A recognized-but-unsupported operator, literal kind or path shape;
    /// `errors` is the translator's error list.
    UnsupportedConstruct { source: String, errors: Vec<String> },
    /// A `self.<field>` access naming no declared field.
    UnresolvedField { source: String, field: String },
}

/// What a terminal error must say of the first failing invariant.
pub open spec fn generation_error_for(
    e: GenerationError,
    inv: InvariantExpression,
    names: Seq<Seq<char>>,
) -> bool {
    if !translates(inv.ast) {
        &&& e matches GenerationError::UnsupportedConstruct { source, errors }
        &&& source@ == inv.source@
        &&& errors@.len() == node_errors(inv.ast).len()
        &&& forall|i: int|
            0 <= i < errors@.len() ==> (#[trigger] errors@[i])@ == node_errors(inv.ast)[i]
    } else {
        &&& e matches GenerationError::UnresolvedField { source, field }
        &&& source@ == inv.source@
        &&& Some(field@) == first_unresolved(inv.ast, names)
    }
}

/// A runtime invariant violation, returned (never thrown) by the
/// validator.
#[derive(Debug)]
pub enum ConstitutionError {
    /// The first violated invariant, named by its source text.  The value
    /// map pairs field names with rendered values for diagnostics; callers
    /// must not assume it is populated, and this validator leaves it
    /// empty.
    InvariantViolation { expression: String, values: Vec<(String, String)> },
}

/// The build-time artifact generated for a type: one proof-obligation line
/// per invariant, in declaration order.
pub struct ValidatorContract {
    pub obligations: Vec<String>,
}

/// What the runtime validator's result must say: `Ok` exactly when every
/// invariant holds of the instance, and `Err` names the source text of the
/// first one that does not, every earlier one holding.  The value map of a
/// violation may legitimately be empty, and here always is.
pub open spec fn enforce_post(
    t: AnnotatedType,
    env: Seq<Binding>,
    r: Result<(), ConstitutionError>,
) -> bool {
    match r {
        Ok(_) => forall|i: int|
            0 <= i < t.invariants@.len() ==> invariant_holds(#[trigger] t.invariants@[i], env),
        Err(e) => exists|i: int|
            0 <= i < t.invariants@.len() && !invariant_holds(#[trigger] t.invariants@[i], env) && (
            forall|j: int| 0 <= j < i ==> invariant_holds(#[trigger] t.invariants@[j], env)) && (
            e matches ConstitutionError::InvariantViolation { expression, values } && expression@
                == t.invariants@[i].source@ && values@.len() == 0),
    }
}

/// A type declaration together with its extracted invariants.
pub struct AnnotatedType {
    pub name: String,
    pub fields: Vec<FieldDeclaration>,
    pub invariants: Vec<InvariantExpression>,
}

/// Translates each annotation of a type, in order, into an invariant
/// record.  A malformed annotation never disappears silently: its record
/// carries the error list.
pub fn extract_invariants(annotations: Vec<Annotation>) -> (r: Vec<InvariantExpression>)
    ensures
        r@.len() == annotations@.len(),
        forall|i: int|
            0 <= i < r@.len() ==> (#[trigger] r@[i]).wf() && r@[i].source == annotations@[i].source
                && r@[i].ast == annotations@[i].ast,
{
    let ghost orig = annotations@;
    let mut remaining = annotations;
    let mut out: Vec<InvariantExpression> = Vec::new();
    while remaining.len() > 0
        invariant
            out@.len() + remaining@.len() == orig.len(),
            remaining@ =~= orig.skip(out@.len() as int),
            forall|i: int|
                0 <= i < out@.len() ==> (#[trigger] out@[i]).wf() && out@[i].source
                    == orig[i].source && out@[i].ast == orig[i].ast,
        decreases remaining@.len(),
    {
        let ghost k = out@.len() as int;
        let a = remaining.remove(0);
        proof {
            assert(a == orig[k]);
            assert(remaining@ =~= orig.skip(k + 1));
        }
        let inv = InvariantExpression::new(a.source, a.ast);
        out.push(inv);
    }
    out
}

/// Whether `name` is among the declared field names.
fn names_contain(fields: &Vec<FieldDeclaration>, name: &String) -> (b: bool)
    ensures
        b == declared_names(fields@).contains(name@),
{
    let mut i: usize = 0;
    while i < fields.len()
        invariant
            i <= fields@.len(),
            forall|j: int| 0 <= j < i ==> declared_names(fields@)[j] != name@,
        decreases fields@.len() - i,
    {
        if fields[i].name == *name {
            proof {
                assert(declared_names(fields@)[i as int] == name@);
            }
            return true;
        }
        i += 1;
    }
    proof {
        assert forall|j: int| 0 <= j < declared_names(fields@).len() implies declared_names(
            fields@,
        )[j] != name@ by {}
    }
    false
}

/// Finds the first unresolved `self.<field>` reference, as
/// [`first_unresolved`] describes.
fn resolve_check(node: &ExpressionNode, fields: &Vec<FieldDeclaration>) -> (r: Option<String>)
    ensures
        r is None ==> first_unresolved(*node, declared_names(fields@)) is None,
        r matches Some(f) ==> Some(f@) == first_unresolved(*node, declared_names(fields@)),
    decreases *node,
{
    match node {
        ExpressionNode::Binary(_, l, r) => {
            let lr = resolve_check(l, fields);
            if lr.is_some() {
                lr
            } else {
                resolve_check(r, fields)
            }
        },
        ExpressionNode::Unary(_, e) => resolve_check(e, fields),
        ExpressionNode::FieldAccess(base, member) => {
            let base_is_self: bool = match &**base {
                ExpressionNode::Identifier(s) => *s == "self".to_owned(),
                _ => false,
            };
            match member {
                FieldMember::Named(f) if base_is_self => {
                    if names_contain(fields, f) {
                        None
                    } else {
                        Some(f.clone())
                    }
                },
                _ => None,
            }
        },
        ExpressionNode::Identifier(_) => None,
        ExpressionNode::Literal(_) => None,
    }
}

impl AnnotatedType {
    /// Every invariant record agrees with the translator.
    pub open spec fn wf(self) -> bool {
        forall|i: int| 0 <= i < self.invariants@.len() ==> (#[trigger] self.invariants@[i]).wf()
    }

    /// Builds an annotated type by extracting and translating its
    /// annotations, in declaration order.
    pub fn new(name: String, fields: Vec<FieldDeclaration>, annotations: Vec<Annotation>) -> (r:
        Self)
        ensures
            r.wf(),
            r.name == name,
            r.fields == fields,
            r.invariants@.len() == annotations@.len(),
            forall|i: int|
                0 <= i < r.invariants@.len() ==> (#[trigger] r.invariants@[i]).source
                    == annotations@[i].source && r.invariants@[i].ast == annotations@[i].ast,
    {
        let invariants = extract_invariants(annotations);
        Self { name, fields, invariants }
    }

    /// Generates the proof-obligation artifact for this type, or halts on
    /// the first invariant that fails translation or names an undeclared
    /// field: on error nothing is emitted for the type at all.
    pub fn generate(&self) -> (r: Result<ValidatorContract, GenerationError>)
        requires
            self.wf(),
        ensures
            (r is Ok) <==> (forall|i: int|
                0 <= i < self.invariants@.len() ==> invariant_good(
                    #[trigger] self.invariants@[i],
                    declared_names(self.fields@),
                )),
            r matches Ok(c) ==> c.obligations@.len() == self.invariants@.len() && (forall|i: int|
                0 <= i < c.obligations@.len() ==> (#[trigger] c.obligations@[i])@
                    == obligation_line(self.invariants@[i].ast)),
            r matches Err(e) ==> exists|i: int|
                0 <= i < self.invariants@.len() && !invariant_good(
                    #[trigger] self.invariants@[i],
                    declared_names(self.fields@),
                ) && (forall|j: int|
                    0 <= j < i ==> invariant_good(
                        #[trigger] self.invariants@[j],
                        declared_names(self.fields@),
                    )) && generation_error_for(
                    e,
                    self.invariants@[i],
                    declared_names(self.fields@),
                ),
    {
        let mut obligations: Vec<String> = Vec::new();
        let mut i: usize = 0;
        while i < self.invariants.len()
            invariant
                self.wf(),
                i <= self.invariants@.len(),
                obligations@.len() == i,
                forall|j: int|
                    0 <= j < i ==> invariant_good(
                        #[trigger] self.invariants@[j],
                        declared_names(self.fields@),
                    ),
                forall|j: int|
                    0 <= j < i ==> (#[trigger] obligations@[j])@ == obligation_line(
                        self.invariants@[j].ast,
                    ),
            decreases self.invariants@.len() - i,
        {
            let inv = &self.invariants[i];
            match &inv.translated {
                None => {
                    let t = translate(&inv.ast);
                    return Err(
                        GenerationError::UnsupportedConstruct {
                            source: inv.source.clone(),
                            errors: t.errors,
                        },
                    );
                },
                Some(t) => {
                    match resolve_check(&inv.ast, &self.fields) {
                        Some(f) => {
                            return Err(
                                GenerationError::UnresolvedField {
                                    source: inv.source.clone(),
                                    field: f,
                                },
                            );
                        },
                        None => {
                            let mut line = String::new();
                            line.append("(assert ");
                            line.append(t.as_str());
                            line.append(")");
                            proof {
                                assert(line@ =~= obligation_line(inv.ast));
                            }
                            obligations.push(line);
                        },
                    }
                },
            }
            i += 1;
        }
        Ok(ValidatorContract { obligations })
    }

    /// The invariant source texts, in declaration order: what the external
    /// prover integration consumes from this type.
    pub fn invariant_expressions(&self) -> (r: Vec<String>)
        ensures
            r@.len() == self.invariants@.len(),
            forall|i: int|
                0 <= i < r@.len() ==> (#[trigger] r@[i])@ == self.invariants@[i].source@,
    {
        let mut texts: Vec<String> = Vec::new();
        let mut i: usize = 0;
        while i < self.invariants.len()
            invariant
                i <= self.invariants@.len(),
                texts@.len() == i,
                forall|j: int|
                    0 <= j < i ==> (#[trigger] texts@[j])@ == self.invariants@[j].source@,
            decreases self.invariants@.len() - i,
        {
            texts.push(self.invariants[i].source.clone());
            i += 1;
        }
        texts
    }

    /// The runtime validator: evaluates each invariant in declaration
    /// order against the instance's field bindings and reports the first
    /// that does not hold, by its source text.  With no invariants it
    /// always succeeds.
    pub fn enforce_law(&self, env: &Vec<Binding>) -> (r: Result<(), ConstitutionError>)
        ensures
            enforce_post(*self, env@, r),
    {
        let mut i: usize = 0;
        while i < self.invariants.len()
            invariant
                i <= self.invariants@.len(),
                forall|j: int|
                    0 <= j < i ==> invariant_holds(#[trigger] self.invariants@[j], env@),
            decreases self.invariants@.len() - i,
        {
            let inv = &self.invariants[i];
            let holds: bool = match eval(&inv.ast, env) {
                Some(FieldValue::Bool(true)) => true,
                _ => false,
            };
            if !holds {
                return Err(
                    ConstitutionError::InvariantViolation {
                        expression: inv.source.clone(),
                        values: Vec::new(),
                    },
                );
            }
            i += 1;
        }
        Ok(())
    }
}

} // verus!

//! A visitor-style front for the pure translator.
//!
//! [`InvariantVisitor`] carries the accumulated S-expression output and
//! error list of the expression it last visited, mirroring a classic
//! visitor-with-output-field interface while delegating the actual work to
//! [`crate::translate::translate`], whose result is pure per node: a
//! sub-expression's failure can therefore never leak a stale or blank
//! fragment into an ancestor's output.

use vstd::prelude::*;
use crate::ast::ExpressionNode;
use crate::translate::{node_errors, translate, translates, translation};

verus! {

/// Translates invariant expressions into S-expression (SMT-LIB style)
/// assertions, accumulating errors for unsupported constructs.
pub struct InvariantVisitor {
    /// The S-expression of the last visited expression, empty if any error
    /// was recorded for it.
    pub smt_output: String,
    /// Errors encountered during traversal (e.g., unsupported operators).
    pub errors: Vec<String>,
}

impl InvariantVisitor {
    /// A fresh visitor with no output and no errors.
    pub fn new() -> (v: Self)
        ensures
            v.smt_output@ == Seq::<char>::empty(),
            v.errors@ == Seq::<String>::empty(),
    {
        Self { smt_output: String::new(), errors: Vec::new() }
    }

    /// Visits one expression: `smt_output` becomes its translation (empty on
    /// failure) and its errors, if any, are appended to `errors`.
    pub fn visit_expr(&mut self, node: &ExpressionNode)
        ensures
            translates(*node) ==> final(self).smt_output@ == translation(*node),
            !translates(*node) ==> final(self).smt_output@ == Seq::<char>::empty(),
            final(self).errors@.len() == old(self).errors@.len() + node_errors(*node).len(),
            forall|i: int|
                0 <= i < old(self).errors@.len()
                    ==> final(self).errors@[i] == old(self).errors@[i],
            forall|i: int|
                old(self).errors@.len() <= i < final(self).errors@.len()
                    ==> (#[trigger] final(self).errors@[i])@
                        == node_errors(*node)[i - old(self).errors@.len()],
    {
        let mut r = translate(node);
        self.smt_output = r.output;
        self.errors.append(&mut r.errors);
    }

    /// Visits a sub-expression in isolation and returns its S-expression,
    /// or an empty string after appending its errors to `errors`: the
    /// caller observes either a complete fragment or a failure, never a
    /// partial result.
    pub fn visit_subexpr(&mut self, expr: &ExpressionNode) -> (r: String)
        ensures
            translates(*expr) ==> r@ == translation(*expr),
            !translates(*expr) ==> r@ == Seq::<char>::empty(),
            final(self).smt_output == old(self).smt_output,
            final(self).errors@.len() == old(self).errors@.len() + node_errors(*expr).len(),
            forall|i: int|
                0 <= i < old(self).errors@.len()
                    ==> final(self).errors@[i] == old(self).errors@[i],
            forall|i: int|
                old(self).errors@.len() <= i < final(self).errors@.len()
                    ==> (#[trigger] final(self).errors@[i])@
                        == node_errors(*expr)[i - old(self).errors@.len()],
    {
        let mut r = translate(expr);
        self.errors.append(&mut r.errors);
        r.output
    }
}

} // verus!

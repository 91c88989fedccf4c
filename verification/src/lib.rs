//! Build-time generation of runtime invariant validators and SMT-LIB proof
//! obligations from declarative invariant annotations.
//!
//! A type declaration carries boolean invariant expressions over its own
//! fields.  This library parses nothing itself: a frontend hands it each
//! annotation as an [`ast::ExpressionNode`].  The library then
//!
//! * translates every expression into an S-expression assertion for an
//!   external prover ([`translate`]),
//! * collects the per-type invariants ([`generate`]), and
//! * evaluates them in declaration order against a live instance's field
//!   values ([`generate::AnnotatedType::enforce_law`]).
//!
//! The guarantees the translator and the validator give are stated once,
//! over all inputs, in [`laws`].

pub mod ast;
pub mod translate;
pub mod visitor;
pub mod eval;
pub mod generate;
pub mod laws;

//! Scope-sensitive OR-desugaring for an aggregation-pipeline expression
//! language.
//!
//! The expression language distinguishes SQL semantic operators (three-valued
//! logic with null/missing propagation) from native (Mql) operators evaluated
//! directly by the target engine.  This pass rewrites SQL logical-OR trees and
//! their compatible descendants into native operator trees, honoring the fresh
//! evaluation scopes that subqueries introduce.
//!
//! - [`ast`] holds the expression and pipeline tree the pass reads and rewrites.
//! - [`model`] holds the mathematical view of those trees that contracts use.
//! - [`table`] maps each SQL operator to its native equivalent, where one exists.
//! - [`rewrite`] is the scope-tracking rewrite over one predicate expression.
//! - [`locate`] finds every predicate site in a pipeline and rewrites it.
//! - [`pass`] is the entry point with the shared pass signature.
//! - [`laws`] proves the pass-wide guarantees the rewrite is designed around.

pub mod ast;
pub mod laws;


pub mod locate;
pub mod model;
pub mod pass;
pub mod rewrite;


pub mod table;

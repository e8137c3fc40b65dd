//! The expression and pipeline trees that the desugarer reads and rewrites.
//!
//! An [`Expression`] is a tagged union over literals, field references,
//! semantic operator applications in either the SQL or the native (Mql)
//! vocabulary, and three subquery-introducing variants, each of which owns a
//! nested pipeline.  A pipeline is an ordered sequence of [`Stage`] values;
//! the `Match` stage carries the predicate site this pass rewrites.

use vstd::prelude::*;

verus! {

/// A SQL semantic operator symbol: evaluated under three-valued logic with
/// SQL's null/missing-propagation rules.
#[derive(Debug, Clone, Copy, PartialEq, Eq, Structural)]
pub enum SqlOperator {
    And,
    Or,
    Not,
    Eq,
    Ne,
    Lt,
    Lte,
    Gt,
    Gte,
    Between,
    NullIf,
    Coalesce,
}

/// A native (Mql) operator symbol: evaluated directly by the target query
/// engine's own matching primitives.
#[derive(Debug, Clone, Copy, PartialEq, Eq, Structural)]
pub enum MqlOperator {
    And,
    Or,
    Not,
    Eq,
    Ne,
    Lt,
    Lte,
    Gt,
    Gte,
}

/// A SQL semantic operator applied to an ordered sequence of operands.
/// Operand order is significant and is preserved by every rewrite.
#[derive(Debug, PartialEq, Eq)]
pub struct SqlSemanticOperator {
    pub op: SqlOperator,
    pub args: Vec<Expression>,
}

/// A native operator applied to an ordered sequence of operands.
#[derive(Debug, PartialEq, Eq)]
pub struct MqlSemanticOperator {
    pub op: MqlOperator,
    pub args: Vec<Expression>,
}

/// An uncorrelated subquery expression owning its own nested pipeline.
#[derive(Debug, PartialEq, Eq)]
pub struct Subquery {
    pub pipeline: Vec<Stage>,
}

/// A comparison of an outer operand against the result of a subquery.  The
/// node itself is not a semantic operator and is never rewritten; both the
/// operand and the nested pipeline lie in the subquery's own scope.
#[derive(Debug, PartialEq, Eq)]
pub struct SubqueryComparison {
    pub arg: Box<Expression>,
    pub subquery: Subquery,
}

/// An existence test over a nested pipeline.
#[derive(Debug, PartialEq, Eq)]
pub struct SubqueryExists {
    pub pipeline: Vec<Stage>,
}

/// One node of the expression tree.
#[derive(Debug, PartialEq, Eq)]
pub enum Expression {
    /// An integer literal, opaque to this pass.
    Literal(i64),
    /// A reference to a document field, opaque to this pass.
    FieldRef(String),
    /// A SQL semantic operator application.
    SqlSemanticOperator(SqlSemanticOperator),
    /// A native operator application.
    MqlSemanticOperator(MqlSemanticOperator),
    /// An array of expressions: a node with children but no operator.
    Array(Vec<Expression>),
    /// An uncorrelated subquery.
    Subquery(Subquery),
    /// A comparison against a subquery result.
    SubqueryComparison(SubqueryComparison),
    /// An existence test over a subquery pipeline.
    SubqueryExists(SubqueryExists),
}

/// An opaque native filter document.  Its operators are already in the native
/// vocabulary, so this pass reconstructs it unchanged.
#[derive(Debug, PartialEq, Eq)]
pub struct MatchQuery {
    pub text: String,
}

/// A predicate site attached to a `Match` stage: either a native-language
/// filter document (not subject to rewriting) or one expression-language
/// predicate tree (the subject of this pass).
#[derive(Debug, PartialEq, Eq)]
pub enum MatchFilter {
    ExprLanguage(Expression),
    MatchLanguage(MatchQuery),
}

/// One stage of a pipeline.
#[derive(Debug, PartialEq, Eq)]
pub enum Stage {
    /// A source stage naming a collection.
    Collection(String),
    /// A filter stage holding a predicate site.
    Match(MatchFilter),
    /// A projection whose parameter expression may embed subqueries, and so
    /// may carry nested predicate sites.
    Project(Expression),
    /// A stage with no expression parameters.
    Limit(u64),
}

} // verus!

//! The operator compatibility table.
//!
//! A pure, total function from a SQL operator symbol to its native equivalent,
//! where one exists.  Absence of a mapping is represented by `None`, never by
//! an error: it marks an operator whose three-valued semantics cannot be
//! expressed by the native engine's matching primitives.

use crate::ast::MqlOperator;
use crate::ast::SqlOperator;
use vstd::prelude::*;

verus! {

/// The native equivalent of a SQL operator, or `None` where the SQL operator
/// has no native counterpart.
pub open spec fn sql_to_mql(op: SqlOperator) -> Option<MqlOperator> {
    match op {
        SqlOperator::And => Some(MqlOperator::And),
        SqlOperator::Or => Some(MqlOperator::Or),
        SqlOperator::Not => Some(MqlOperator::Not),
        SqlOperator::Eq => Some(MqlOperator::Eq),
        SqlOperator::Ne => Some(MqlOperator::Ne),
        SqlOperator::Lt => Some(MqlOperator::Lt),
        SqlOperator::Lte => Some(MqlOperator::Lte),
        SqlOperator::Gt => Some(MqlOperator::Gt),
        SqlOperator::Gte => Some(MqlOperator::Gte),
        SqlOperator::Between => None,
        SqlOperator::NullIf => None,
        SqlOperator::Coalesce => None,
    }
}

/// Looks up the native equivalent of a SQL operator.
pub fn sql_op_to_mql_op(op: SqlOperator) -> (r: Option<MqlOperator>)
    ensures
        r == sql_to_mql(op),
{
    match op {
        SqlOperator::And => Some(MqlOperator::And),
        SqlOperator::Or => Some(MqlOperator::Or),
        SqlOperator::Not => Some(MqlOperator::Not),
        SqlOperator::Eq => Some(MqlOperator::Eq),
        SqlOperator::Ne => Some(MqlOperator::Ne),
        SqlOperator::Lt => Some(MqlOperator::Lt),
        SqlOperator::Lte => Some(MqlOperator::Lte),
        SqlOperator::Gt => Some(MqlOperator::Gt),
        SqlOperator::Gte => Some(MqlOperator::Gte),
        SqlOperator::Between => None,
        SqlOperator::NullIf => None,
        SqlOperator::Coalesce => None,
    }
}

} // verus!

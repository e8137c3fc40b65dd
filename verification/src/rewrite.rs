//! The scope-tracking rewrite over one predicate expression.
//!
//! The traversal carries one piece of context: whether the current node is a
//! descendant of an OR that has been rewritten to native form.  The context is
//! passed by value into each recursive call, so it nests correctly across
//! sibling subtrees and is restored on return by construction.  At each node:
//!
//! 1. a SQL OR saves the context, sets it, rewrites itself to the native OR,
//!    and descends into its operands under the new context;
//! 2. any other SQL operator is rewritten exactly when the context is set and
//!    the compatibility table maps it; its operands are visited under the
//!    unchanged context either way;
//! 3. a subquery variant is never rewritten itself, and its nested pipeline
//!    and correlated operand are visited under a cleared context: a subquery
//!    is an independent evaluation scope;
//! 4. every other node is kept and its children visited under the unchanged
//!    context.
//!
//! [`rewrite_expr`] is the mathematical statement of that traversal;
//! [`OrExpressionsDesugarerVisitor`] is the executable form, proved equal.

use crate::ast::Expression;
use crate::ast::MatchFilter;
use crate::ast::MqlSemanticOperator;
use crate::ast::SqlOperator;
use crate::ast::SqlSemanticOperator;
use crate::ast::Stage;
use crate::model::expr_view;
use crate::model::exprs_view;
use crate::model::stage_view;
use crate::model::stages_view;
use crate::model::ExprV;
use crate::model::MatchFilterV;
use crate::model::StageV;
use crate::table::sql_op_to_mql_op;
use crate::table::sql_to_mql;
use vstd::prelude::*;

verus! {

/// The rewrite of a single SQL operator node whose operands are `args`:
/// rewritten to the native vocabulary exactly when the OR-context is set and
/// the table maps the operator; kept as a SQL node otherwise.
pub open spec fn desugared_sql_operator_node(
    op: SqlOperator,
    args: Seq<ExprV>,
    within_or: bool,
) -> ExprV {
    match sql_to_mql(op) {
        Some(m) => if within_or {
            ExprV::MqlOp { op: m, args }
        } else {
            ExprV::SqlOp { op, args }
        },
        None => ExprV::SqlOp { op, args },
    }
}

/// The scope-tracking rewrite of one expression under a given OR-context.
pub open spec fn rewrite_expr(e: ExprV, within_or: bool) -> ExprV
    decreases e,
{
    match e {
        ExprV::SqlOp { op, args } => {
            let scope = op == SqlOperator::Or || within_or;
            desugared_sql_operator_node(op, rewrite_exprs(args, scope), scope)
        },
        ExprV::MqlOp { op, args } => ExprV::MqlOp { op, args: rewrite_exprs(args, within_or) },
        ExprV::Array { items } => ExprV::Array { items: rewrite_exprs(items, within_or) },
        ExprV::Subquery { pipeline } => ExprV::Subquery { pipeline: rewrite_stages(pipeline) },
        ExprV::SubqueryComparison { arg, pipeline } => ExprV::SubqueryComparison {
            arg: rewrite_exprs(arg, false),
            pipeline: rewrite_stages(pipeline),
        },
        ExprV::SubqueryExists { pipeline } => ExprV::SubqueryExists {
            pipeline: rewrite_stages(pipeline),
        },
        _ => e,
    }
}

/// The rewrite of each expression of a sequence, all under the same context.
pub open spec fn rewrite_exprs(s: Seq<ExprV>, within_or: bool) -> Seq<ExprV>
    decreases s,
{
    if s.len() == 0 {
        Seq::empty()
    } else {
        seq![rewrite_expr(s[0], within_or)] + rewrite_exprs(s.drop_first(), within_or)
    }
}

/// The rewrite of one stage of a nested pipeline reached from inside a
/// predicate expression.  The traversal enters the pipeline under a cleared
/// context, and the context is restored after every expression subtree, so
/// each expression the stage carries is rewritten starting outside any OR.
pub open spec fn rewrite_stage(st: StageV) -> StageV
    decreases st,
{
    match st {
        StageV::Match { filter: MatchFilterV::ExprLanguage(e) } => StageV::Match {
            filter: MatchFilterV::ExprLanguage(rewrite_expr(e, false)),
        },
        StageV::Project { expr } => StageV::Project { expr: rewrite_expr(expr, false) },
        _ => st,
    }
}

/// The rewrite of every stage of a nested pipeline, in order.
pub open spec fn rewrite_stages(s: Seq<StageV>) -> Seq<StageV>
    decreases s,
{
    if s.len() == 0 {
        Seq::empty()
    } else {
        seq![rewrite_stage(s[0])] + rewrite_stages(s.drop_first())
    }
}

/// `rewrite_exprs` rewrites each element independently, under the one shared
/// context: what a sibling subtree contains never changes how another sibling
/// is rewritten.
pub proof fn lemma_rewrite_exprs(s: Seq<ExprV>, within_or: bool)
    ensures
        rewrite_exprs(s, within_or).len() == s.len(),
        forall|i: int|
            0 <= i < s.len() ==> rewrite_exprs(s, within_or)[i] == rewrite_expr(
                s[i],
                within_or,
            ),
    decreases s.len(),
{
    if s.len() > 0 {
        lemma_rewrite_exprs(s.drop_first(), within_or);
        assert forall|i: int|
            0 <= i < s.len() implies rewrite_exprs(s, within_or)[i] == rewrite_expr(
            s[i],
            within_or,
        ) by {
            if i > 0 {
                assert(s.drop_first()[i - 1] == s[i]);
            }
        }
    }
}

/// `rewrite_stages` rewrites each stage independently, in order.
pub proof fn lemma_rewrite_stages(s: Seq<StageV>)
    ensures
        rewrite_stages(s).len() == s.len(),
        forall|i: int| 0 <= i < s.len() ==> rewrite_stages(s)[i] == rewrite_stage(s[i]),
    decreases s.len(),
{
    if s.len() > 0 {
        lemma_rewrite_stages(s.drop_first());
        assert forall|i: int| 0 <= i < s.len() implies rewrite_stages(s)[i] == rewrite_stage(
            s[i],
        ) by {
            if i > 0 {
                assert(s.drop_first()[i - 1] == s[i]);
            }
        }
    }
}

/// The scope-tracking rewrite visitor.  One value is constructed fresh, with a
/// cleared context, for each predicate site; descending under an OR or into a
/// subquery constructs a new value, so the enclosing context is restored on
/// return by construction.
pub struct OrExpressionsDesugarerVisitor {
    pub is_within_or_context: bool,
}

impl OrExpressionsDesugarerVisitor {
    /// Rewrites a single SQL operator node, leaving its operands as given:
    /// to the native vocabulary when the OR-context is set and the table maps
    /// the operator, and unchanged otherwise.
    pub fn desugar_sql_semantic_operator_expression(
        &self,
        operator: SqlSemanticOperator,
    ) -> (r: Expression)
        ensures
            expr_view(r) == desugared_sql_operator_node(
                operator.op,
                exprs_view(operator.args@),
                self.is_within_or_context,
            ),
    {
        let as_mql_op = sql_op_to_mql_op(operator.op);
        if !self.is_within_or_context || as_mql_op.is_none() {
            return Expression::SqlSemanticOperator(operator);
        }
        Expression::MqlSemanticOperator(MqlSemanticOperator {
            op: as_mql_op.unwrap(),
            args: operator.args,
        })
    }

    /// Rewrites one expression tree under the visitor's context.
    pub fn visit_expression(&self, node: Expression) -> (r: Expression)
        ensures
            expr_view(r) == rewrite_expr(expr_view(node), self.is_within_or_context),
        decreases node,
    {
        let ghost n0 = node;
        match node {
            Expression::SqlSemanticOperator(s) => {
                let ghost s0 = s;
                let SqlSemanticOperator { op, args } = s;
                let scope = op == SqlOperator::Or || self.is_within_or_context;
                let sub = OrExpressionsDesugarerVisitor { is_within_or_context: scope };
                proof {
                    assert(decreases_to!(n0 => s0));
                    assert(decreases_to!(s0 => args));
                    assert(decreases_to!(args => args@));
                }
                let new_args = sub.visit_expressions(args);
                sub.desugar_sql_semantic_operator_expression(
                    SqlSemanticOperator { op, args: new_args },
                )
            },
            Expression::MqlSemanticOperator(m) => {
                let ghost m0 = m;
                let MqlSemanticOperator { op, args } = m;
                proof {
                    assert(decreases_to!(n0 => m0));
                    assert(decreases_to!(m0 => args));
                    assert(decreases_to!(args => args@));
                }
                let new_args = self.visit_expressions(args);
                Expression::MqlSemanticOperator(MqlSemanticOperator { op, args: new_args })
            },
            Expression::Array(items) => {
                let ghost i0 = items;
                proof {
                    assert(decreases_to!(n0 => i0));
                    assert(decreases_to!(i0 => i0@));
                }
                let new_items = self.visit_expressions(items);
                Expression::Array(new_items)
            },
            Expression::Subquery(s) => {
                let ghost s0 = s;
                let crate::ast::Subquery { pipeline } = s;
                proof {
                    assert(decreases_to!(n0 => s0));
                    assert(decreases_to!(s0 => pipeline));
                    assert(decreases_to!(pipeline => pipeline@));
                }
                let new_pipeline = visit_nested_pipeline(pipeline);
                Expression::Subquery(crate::ast::Subquery { pipeline: new_pipeline })
            },
            Expression::SubqueryComparison(c) => {
                let ghost c0 = c;
                let crate::ast::SubqueryComparison { arg, subquery } = c;
                let ghost sq0 = subquery;
                let crate::ast::Subquery { pipeline } = subquery;
                let inner = OrExpressionsDesugarerVisitor { is_within_or_context: false };
                proof {
                    assert(decreases_to!(n0 => c0));
                    assert(decreases_to!(c0 => arg));
                    assert(decreases_to!(c0 => sq0));
                    assert(decreases_to!(sq0 => pipeline));
                    assert(decreases_to!(pipeline => pipeline@));
                }
                let new_arg = inner.visit_expression(*arg);
                let new_pipeline = visit_nested_pipeline(pipeline);
                let r = Expression::SubqueryComparison(crate::ast::SubqueryComparison {
                    arg: Box::new(new_arg),
                    subquery: crate::ast::Subquery { pipeline: new_pipeline },
                });
                proof {
                    let a0 = seq![expr_view(*c0.arg)];
                    assert(a0.drop_first() =~= Seq::<ExprV>::empty());
                    assert(rewrite_exprs(Seq::<ExprV>::empty(), false) =~= Seq::<ExprV>::empty());
                    assert(a0[0] == expr_view(*c0.arg));
                    assert(rewrite_exprs(a0, false) =~= seq![expr_view(new_arg)]);
                }
                r
            },
            Expression::SubqueryExists(s) => {
                let ghost s0 = s;
                let crate::ast::SubqueryExists { pipeline } = s;
                proof {
                    assert(decreases_to!(n0 => s0));
                    assert(decreases_to!(s0 => pipeline));
                    assert(decreases_to!(pipeline => pipeline@));
                }
                let new_pipeline = visit_nested_pipeline(pipeline);
                Expression::SubqueryExists(crate::ast::SubqueryExists { pipeline: new_pipeline })
            },
            other => other,
        }
    }

    /// Rewrites each expression of a sequence of operands under the visitor's
    /// context, preserving their order.
    pub fn visit_expressions(&self, args: Vec<Expression>) -> (r: Vec<Expression>)
        ensures
            exprs_view(r@) == rewrite_exprs(exprs_view(args@), self.is_within_or_context),
        decreases args@,
    {
        let ghost a0 = args@;
        if args.len() == 0 {
            proof {
                assert(exprs_view(a0) =~= Seq::<ExprV>::empty());
            }
            args
        } else {
            let mut args = args;
            let first = args.remove(0);
            proof {
                assert(args@ =~= a0.drop_first());
                assert(decreases_to!(a0 => a0[0]));
                assert(decreases_to!(a0 => a0.subrange(1, a0.len() as int)));
                assert(a0.drop_first() =~= a0.subrange(1, a0.len() as int));
            }
            let r0 = self.visit_expression(first);
            let mut rest = self.visit_expressions(args);
            let ghost rest0 = rest@;
            rest.insert(0, r0);
            proof {
                assert(rest@ =~= seq![r0] + rest0);
                assert(rest@[0] == r0);
                assert(rest@.drop_first() =~= rest0);
                let ev = exprs_view(a0);
                assert(ev[0] == expr_view(a0[0]));
                assert(ev.drop_first() =~= exprs_view(a0.drop_first()));
                assert(exprs_view(rest@) == seq![expr_view(r0)] + exprs_view(rest0));
                assert(rewrite_exprs(ev, self.is_within_or_context) == seq![
                    rewrite_expr(ev[0], self.is_within_or_context),
                ] + rewrite_exprs(ev.drop_first(), self.is_within_or_context));
            }
            rest
        }
    }
}

/// Rewrites every stage of a nested pipeline reached from inside a predicate
/// expression.  The pipeline is an independent evaluation scope: each
/// expression in it is rewritten by a visitor whose context starts cleared.
pub fn visit_nested_pipeline(pipeline: Vec<Stage>) -> (r: Vec<Stage>)
    ensures
        stages_view(r@) == rewrite_stages(stages_view(pipeline@)),
    decreases pipeline@,
{
    let ghost p0 = pipeline@;
    if pipeline.len() == 0 {
        proof {
            assert(stages_view(p0) =~= Seq::<StageV>::empty());
        }
        pipeline
    } else {
        let mut pipeline = pipeline;
        let first = pipeline.remove(0);
        proof {
            assert(pipeline@ =~= p0.drop_first());
            assert(decreases_to!(p0 => p0[0]));
            assert(decreases_to!(p0 => p0.subrange(1, p0.len() as int)));
            assert(p0.drop_first() =~= p0.subrange(1, p0.len() as int));
        }
        let r0 = visit_nested_stage(first);
        let mut rest = visit_nested_pipeline(pipeline);
        let ghost rest0 = rest@;
        rest.insert(0, r0);
        proof {
            assert(rest@ =~= seq![r0] + rest0);
            assert(rest@[0] == r0);
            assert(rest@.drop_first() =~= rest0);
            let sv = stages_view(p0);
            assert(sv[0] == stage_view(p0[0]));
            assert(sv.drop_first() =~= stages_view(p0.drop_first()));
            assert(stages_view(rest@) == seq![stage_view(r0)] + stages_view(rest0));
            assert(rewrite_stages(sv) == seq![rewrite_stage(sv[0])] + rewrite_stages(
                sv.drop_first(),
            ));
        }
        rest
    }
}

/// Rewrites the expressions one stage of a nested pipeline carries, each by a
/// visitor whose context starts cleared.
pub fn visit_nested_stage(st: Stage) -> (r: Stage)
    ensures
        stage_view(r) == rewrite_stage(stage_view(st)),
    decreases st,
{
    let ghost st0 = st;
    match st {
        Stage::Match(MatchFilter::ExprLanguage(e)) => {
            let ghost e0 = e;
            let visitor = OrExpressionsDesugarerVisitor { is_within_or_context: false };
            proof {
                assert(decreases_to!(st0 => e0));
            }
            Stage::Match(MatchFilter::ExprLanguage(visitor.visit_expression(e)))
        },
        Stage::Project(e) => {
            let ghost e0 = e;
            let visitor = OrExpressionsDesugarerVisitor { is_within_or_context: false };
            proof {
                assert(decreases_to!(st0 => e0));
            }
            Stage::Project(visitor.visit_expression(e))
        },
        other => other,
    }
}

} // verus!

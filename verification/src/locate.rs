//! The match-site locator.
//!
//! Walks an entire pipeline and, at each expression-language predicate site,
//! invokes a fresh scope-tracking rewrite visitor on just that site's
//! expression.  Native-language predicate sites are reconstructed unchanged.
//! Non-predicate stages and non-predicate expression nodes are passed through
//! unchanged, but the walk still recurses through them — and into the nested
//! pipelines that subquery expressions carry — so that deeper predicate sites
//! are reached, each desugared under its own independent context.
//!
//! [`locate_stages`] is the mathematical statement of that walk;
//! [`FilterStageDesugarerVisitor`] is the executable form, proved equal.

use crate::ast::Expression;
use crate::ast::MatchFilter;
use crate::ast::MqlSemanticOperator;
use crate::ast::SqlSemanticOperator;
use crate::ast::Stage;
use crate::model::expr_view;
use crate::model::exprs_view;
use crate::model::filter_view;
use crate::model::stage_view;
use crate::model::stages_view;
use crate::model::ExprV;
use crate::model::MatchFilterV;
use crate::model::StageV;
use crate::rewrite::rewrite_expr;
use crate::rewrite::OrExpressionsDesugarerVisitor;
use vstd::prelude::*;

verus! {

/// The locator's effect on one predicate site: an expression-language
/// predicate is rewritten by a fresh visitor, starting outside any OR; a
/// native-language filter is kept as it is.
pub open spec fn locate_filter(f: MatchFilterV) -> MatchFilterV {
    match f {
        MatchFilterV::ExprLanguage(e) => MatchFilterV::ExprLanguage(rewrite_expr(e, false)),
        MatchFilterV::MatchLanguage(q) => MatchFilterV::MatchLanguage(q),
    }
}

/// The locator's walk of one expression that is not itself a predicate: no
/// node is rewritten, but nested pipelines are walked for predicate sites.
pub open spec fn locate_expr(e: ExprV) -> ExprV
    decreases e,
{
    match e {
        ExprV::SqlOp { op, args } => ExprV::SqlOp { op, args: locate_exprs(args) },
        ExprV::MqlOp { op, args } => ExprV::MqlOp { op, args: locate_exprs(args) },
        ExprV::Array { items } => ExprV::Array { items: locate_exprs(items) },
        ExprV::Subquery { pipeline } => ExprV::Subquery { pipeline: locate_stages(pipeline) },
        ExprV::SubqueryComparison { arg, pipeline } => ExprV::SubqueryComparison {
            arg: locate_exprs(arg),
            pipeline: locate_stages(pipeline),
        },
        ExprV::SubqueryExists { pipeline } => ExprV::SubqueryExists {
            pipeline: locate_stages(pipeline),
        },
        _ => e,
    }
}

/// The locator's walk of a sequence of non-predicate expressions.
pub open spec fn locate_exprs(s: Seq<ExprV>) -> Seq<ExprV>
    decreases s,
{
    if s.len() == 0 {
        Seq::empty()
    } else {
        seq![locate_expr(s[0])] + locate_exprs(s.drop_first())
    }
}

/// The locator's walk of one stage: predicate sites are desugared, every
/// other stage is kept, and its expressions are walked for nested sites.
pub open spec fn locate_stage(st: StageV) -> StageV
    decreases st,
{
    match st {
        StageV::Match { filter } => StageV::Match { filter: locate_filter(filter) },
        StageV::Project { expr } => StageV::Project { expr: locate_expr(expr) },
        _ => st,
    }
}

/// The locator's walk of a whole pipeline, stage by stage.
pub open spec fn locate_stages(s: Seq<StageV>) -> Seq<StageV>
    decreases s,
{
    if s.len() == 0 {
        Seq::empty()
    } else {
        seq![locate_stage(s[0])] + locate_stages(s.drop_first())
    }
}

/// `locate_exprs` walks each element independently, in order.
pub proof fn lemma_locate_exprs(s: Seq<ExprV>)
    ensures
        locate_exprs(s).len() == s.len(),
        forall|i: int| 0 <= i < s.len() ==> locate_exprs(s)[i] == locate_expr(s[i]),
    decreases s.len(),
{
    if s.len() > 0 {
        lemma_locate_exprs(s.drop_first());
        assert forall|i: int| 0 <= i < s.len() implies locate_exprs(s)[i] == locate_expr(
            s[i],
        ) by {
            if i > 0 {
                assert(s.drop_first()[i - 1] == s[i]);
            }
        }
    }
}

/// `locate_stages` walks each stage independently, in order.
pub proof fn lemma_locate_stages(s: Seq<StageV>)
    ensures
        locate_stages(s).len() == s.len(),
        forall|i: int| 0 <= i < s.len() ==> locate_stages(s)[i] == locate_stage(s[i]),
    decreases s.len(),
{
    if s.len() > 0 {
        lemma_locate_stages(s.drop_first());
        assert forall|i: int| 0 <= i < s.len() implies locate_stages(s)[i] == locate_stage(
            s[i],
        ) by {
            if i > 0 {
                assert(s.drop_first()[i - 1] == s[i]);
            }
        }
    }
}

/// The executable match-site locator.  It carries no state of its own: every
/// predicate site gets a rewrite visitor constructed fresh, so no context is
/// ever shared across sites or across a subquery boundary.
pub struct FilterStageDesugarerVisitor {}

impl FilterStageDesugarerVisitor {
    /// Desugars one predicate site: the expression-language variant is
    /// rewritten by a fresh visitor, the native-language variant is kept.
    pub fn visit_match(&self, node: MatchFilter) -> (r: MatchFilter)
        ensures
            filter_view(r) == locate_filter(filter_view(node)),
    {
        match node {
            MatchFilter::ExprLanguage(e) => {
                let or_expression_visitor = OrExpressionsDesugarerVisitor {
                    is_within_or_context: false,
                };
                MatchFilter::ExprLanguage(or_expression_visitor.visit_expression(e))
            },
            MatchFilter::MatchLanguage(q) => MatchFilter::MatchLanguage(q),
        }
    }

    /// Walks one non-predicate expression, desugaring the predicate sites of
    /// any nested pipeline it carries.
    pub fn visit_expression(&self, node: Expression) -> (r: Expression)
        ensures
            expr_view(r) == locate_expr(expr_view(node)),
        decreases node,
    {
        let ghost n0 = node;
        match node {
            Expression::SqlSemanticOperator(s) => {
                let ghost s0 = s;
                let SqlSemanticOperator { op, args } = s;
                proof {
                    assert(decreases_to!(n0 => s0));
                    assert(decreases_to!(s0 => args));
                    assert(decreases_to!(args => args@));
                }
                let new_args = self.visit_expressions(args);
                Expression::SqlSemanticOperator(SqlSemanticOperator { op, args: new_args })
            },
            Expression::MqlSemanticOperator(m) => {
                let ghost m0 = m;
                let MqlSemanticOperator { op, args } = m;
                proof {
                    assert(decreases_to!(n0 => m0));
                    assert(decreases_to!(m0 => args));
                    assert(decreases_to!(args => args@));
                }
                let new_args = self.visit_expressions(args);
                Expression::MqlSemanticOperator(MqlSemanticOperator { op, args: new_args })
            },
            Expression::Array(items) => {
                let ghost i0 = items;
                proof {
                    assert(decreases_to!(n0 => i0));
                    assert(decreases_to!(i0 => i0@));
                }
                let new_items = self.visit_expressions(items);
                Expression::Array(new_items)
            },
            Expression::Subquery(s) => {
                let ghost s0 = s;
                let crate::ast::Subquery { pipeline } = s;
                proof {
                    assert(decreases_to!(n0 => s0));
                    assert(decreases_to!(s0 => pipeline));
                    assert(decreases_to!(pipeline => pipeline@));
                }
                let new_pipeline = self.visit_pipeline(pipeline);
                Expression::Subquery(crate::ast::Subquery { pipeline: new_pipeline })
            },
            Expression::SubqueryComparison(c) => {
                let ghost c0 = c;
                let crate::ast::SubqueryComparison { arg, subquery } = c;
                let ghost sq0 = subquery;
                let crate::ast::Subquery { pipeline } = subquery;
                proof {
                    assert(decreases_to!(n0 => c0));
                    assert(decreases_to!(c0 => arg));
                    assert(decreases_to!(c0 => sq0));
                    assert(decreases_to!(sq0 => pipeline));
                    assert(decreases_to!(pipeline => pipeline@));
                }
                let new_arg = self.visit_expression(*arg);
                let new_pipeline = self.visit_pipeline(pipeline);
                let r = Expression::SubqueryComparison(crate::ast::SubqueryComparison {
                    arg: Box::new(new_arg),
                    subquery: crate::ast::Subquery { pipeline: new_pipeline },
                });
                proof {
                    let a0 = seq![expr_view(*c0.arg)];
                    assert(a0.drop_first() =~= Seq::<ExprV>::empty());
                    assert(locate_exprs(Seq::<ExprV>::empty()) =~= Seq::<ExprV>::empty());
                    assert(a0[0] == expr_view(*c0.arg));
                    assert(locate_exprs(a0) =~= seq![expr_view(new_arg)]);
                }
                r
            },
            Expression::SubqueryExists(s) => {
                let ghost s0 = s;
                let crate::ast::SubqueryExists { pipeline } = s;
                proof {
                    assert(decreases_to!(n0 => s0));
                    assert(decreases_to!(s0 => pipeline));
                    assert(decreases_to!(pipeline => pipeline@));
                }
                let new_pipeline = self.visit_pipeline(pipeline);
                Expression::SubqueryExists(crate::ast::SubqueryExists { pipeline: new_pipeline })
            },
            other => other,
        }
    }

    /// Walks a sequence of non-predicate expressions, in order.
    pub fn visit_expressions(&self, args: Vec<Expression>) -> (r: Vec<Expression>)
        ensures
            exprs_view(r@) == locate_exprs(exprs_view(args@)),
        decreases args@,
    {
        let ghost a0 = args@;
        if args.len() == 0 {
            proof {
                assert(exprs_view(a0) =~= Seq::<ExprV>::empty());
            }
            args
        } else {
            let mut args = args;
            let first = args.remove(0);
            proof {
                assert(args@ =~= a0.drop_first());
                assert(decreases_to!(a0 => a0[0]));
                assert(decreases_to!(a0 => a0.subrange(1, a0.len() as int)));
                assert(a0.drop_first() =~= a0.subrange(1, a0.len() as int));
            }
            let r0 = self.visit_expression(first);
            let mut rest = self.visit_expressions(args);
            let ghost rest0 = rest@;
            rest.insert(0, r0);
            proof {
                assert(rest@ =~= seq![r0] + rest0);
                assert(rest@[0] == r0);
                assert(rest@.drop_first() =~= rest0);
                let ev = exprs_view(a0);
                assert(ev[0] == expr_view(a0[0]));
                assert(ev.drop_first() =~= exprs_view(a0.drop_first()));
                assert(exprs_view(rest@) == seq![expr_view(r0)] + exprs_view(rest0));
                assert(locate_exprs(ev) == seq![locate_expr(ev[0])] + locate_exprs(
                    ev.drop_first(),
                ));
            }
            rest
        }
    }

    /// Walks one stage, desugaring its predicate site if it has one and
    /// reaching nested sites through its expressions otherwise.
    pub fn visit_stage(&self, st: Stage) -> (r: Stage)
        ensures
            stage_view(r) == locate_stage(stage_view(st)),
        decreases st,
    {
        let ghost st0 = st;
        match st {
            Stage::Match(f) => {
                let ghost f0 = f;
                proof {
                    assert(decreases_to!(st0 => f0));
                }
                Stage::Match(self.visit_match(f))
            },
            Stage::Project(e) => {
                let ghost e0 = e;
                proof {
                    assert(decreases_to!(st0 => e0));
                }
                Stage::Project(self.visit_expression(e))
            },
            other => other,
        }
    }

    /// Walks a whole pipeline, stage by stage, in order.
    pub fn visit_pipeline(&self, pipeline: Vec<Stage>) -> (r: Vec<Stage>)
        ensures
            stages_view(r@) == locate_stages(stages_view(pipeline@)),
        decreases pipeline@,
    {
        let ghost p0 = pipeline@;
        if pipeline.len() == 0 {
            proof {
                assert(stages_view(p0) =~= Seq::<StageV>::empty());
            }
            pipeline
        } else {
            let mut pipeline = pipeline;
            let first = pipeline.remove(0);
            proof {
                assert(pipeline@ =~= p0.drop_first());
                assert(decreases_to!(p0 => p0[0]));
                assert(decreases_to!(p0 => p0.subrange(1, p0.len() as int)));
                assert(p0.drop_first() =~= p0.subrange(1, p0.len() as int));
            }
            let r0 = self.visit_stage(first);
            let mut rest = self.visit_pipeline(pipeline);
            let ghost rest0 = rest@;
            rest.insert(0, r0);
            proof {
                assert(rest@ =~= seq![r0] + rest0);
                assert(rest@[0] == r0);
                assert(rest@.drop_first() =~= rest0);
                let sv = stages_view(p0);
                assert(sv[0] == stage_view(p0[0]));
                assert(sv.drop_first() =~= stages_view(p0.drop_first()));
                assert(stages_view(rest@) == seq![stage_view(r0)] + stages_view(rest0));
                assert(locate_stages(sv) == seq![locate_stage(sv[0])] + locate_stages(
                    sv.drop_first(),
                ));
            }
            rest
        }
    }
}

} // verus!

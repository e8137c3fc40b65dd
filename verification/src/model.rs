//! The mathematical view of the trees in [`crate::ast`].
//!
//! Contracts in this crate speak about these view types rather than about the
//! executable trees directly: a `Vec` of children becomes a `Seq`, a `String`
//! becomes a `Seq<char>`, and machine integers become mathematical ones.  The
//! view of a tree is computed by the mutually recursive functions
//! [`expr_view`], [`exprs_view`], [`stage_view`], [`stages_view`] and
//! [`filter_view`].

use crate::ast::Expression;
use crate::ast::MatchFilter;
use crate::ast::MqlOperator;
use crate::ast::SqlOperator;
use crate::ast::Stage;
use vstd::prelude::*;

verus! {

/// The view of one expression node.
///
/// In `SubqueryComparison`, the correlated outer operand is carried as a
/// one-element sequence: a recursive ghost type needs the indirection that
/// `Seq` supplies.
#[allow(inconsistent_fields)]
pub enum ExprV {
    Literal(int),
    FieldRef(Seq<char>),
    SqlOp { op: SqlOperator, args: Seq<ExprV> },
    MqlOp { op: MqlOperator, args: Seq<ExprV> },
    Array { items: Seq<ExprV> },
    Subquery { pipeline: Seq<StageV> },
    SubqueryComparison { arg: Seq<ExprV>, pipeline: Seq<StageV> },
    SubqueryExists { pipeline: Seq<StageV> },
}

/// The view of a predicate site.
pub enum MatchFilterV {
    ExprLanguage(ExprV),
    MatchLanguage(Seq<char>),
}

/// The view of one pipeline stage.
pub enum StageV {
    Collection { name: Seq<char> },
    Match { filter: MatchFilterV },
    Project { expr: ExprV },
    Limit { n: int },
}

/// The view of an expression tree.
pub open spec fn expr_view(e: Expression) -> ExprV
    decreases e,
{
    match e {
        Expression::Literal(n) => ExprV::Literal(n as int),
        Expression::FieldRef(f) => ExprV::FieldRef(f@),
        Expression::SqlSemanticOperator(s) => ExprV::SqlOp { op: s.op, args: exprs_view(s.args@) },
        Expression::MqlSemanticOperator(m) => ExprV::MqlOp { op: m.op, args: exprs_view(m.args@) },
        Expression::Array(items) => ExprV::Array { items: exprs_view(items@) },
        Expression::Subquery(s) => ExprV::Subquery { pipeline: stages_view(s.pipeline@) },
        Expression::SubqueryComparison(c) => ExprV::SubqueryComparison {
            arg: seq![expr_view(*c.arg)],
            pipeline: stages_view(c.subquery.pipeline@),
        },
        Expression::SubqueryExists(s) => ExprV::SubqueryExists {
            pipeline: stages_view(s.pipeline@),
        },
    }
}

/// The views of a sequence of expressions, in order.
pub open spec fn exprs_view(s: Seq<Expression>) -> Seq<ExprV>
    decreases s,
{
    if s.len() == 0 {
        Seq::empty()
    } else {
        seq![expr_view(s[0])] + exprs_view(s.drop_first())
    }
}

/// The view of a predicate site.
pub open spec fn filter_view(f: MatchFilter) -> MatchFilterV
    decreases f,
{
    match f {
        MatchFilter::ExprLanguage(e) => MatchFilterV::ExprLanguage(expr_view(e)),
        MatchFilter::MatchLanguage(q) => MatchFilterV::MatchLanguage(q.text@),
    }
}

/// The view of one pipeline stage.
pub open spec fn stage_view(st: Stage) -> StageV
    decreases st,
{
    match st {
        Stage::Collection(name) => StageV::Collection { name: name@ },
        Stage::Match(f) => StageV::Match { filter: filter_view(f) },
        Stage::Project(e) => StageV::Project { expr: expr_view(e) },
        Stage::Limit(n) => StageV::Limit { n: n as int },
    }
}

/// The views of a pipeline's stages, in order.
pub open spec fn stages_view(s: Seq<Stage>) -> Seq<StageV>
    decreases s,
{
    if s.len() == 0 {
        Seq::empty()
    } else {
        seq![stage_view(s[0])] + stages_view(s.drop_first())
    }
}

/// `exprs_view` maps `expr_view` over the sequence, element by element.
pub proof fn lemma_exprs_view(s: Seq<Expression>)
    ensures
        exprs_view(s).len() == s.len(),
        forall|i: int| 0 <= i < s.len() ==> exprs_view(s)[i] == expr_view(s[i]),
    decreases s.len(),
{
    if s.len() > 0 {
        lemma_exprs_view(s.drop_first());
        assert forall|i: int| 0 <= i < s.len() implies exprs_view(s)[i] == expr_view(s[i]) by {
            if i > 0 {
                assert(s.drop_first()[i - 1] == s[i]);
            }
        }
    }
}

/// `stages_view` maps `stage_view` over the sequence, element by element.
pub proof fn lemma_stages_view(s: Seq<Stage>)
    ensures
        stages_view(s).len() == s.len(),
        forall|i: int| 0 <= i < s.len() ==> stages_view(s)[i] == stage_view(s[i]),
    decreases s.len(),
{
    if s.len() > 0 {
        lemma_stages_view(s.drop_first());
        assert forall|i: int| 0 <= i < s.len() implies stages_view(s)[i] == stage_view(s[i]) by {
            if i > 0 {
                assert(s.drop_first()[i - 1] == s[i]);
            }
        }
    }
}

} // verus!

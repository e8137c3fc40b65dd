//! The guarantees the rewrite is designed around, stated and proved.
//!
//! The central invariant is non-local: once a boolean subtree is rooted at a
//! rewritten OR, every descendant operator with a native equivalent must be
//! rewritten too, while nothing outside that subtree — a sibling, or the body
//! of a subquery — may be touched by the OR's context.  The lemmas here state
//! that invariant over the spec-level rewrite, together with the scope
//! save/restore discipline and the pass's behavior on already-native input.

use crate::ast::MqlOperator;
use crate::ast::SqlOperator;
use crate::locate::locate_expr;
use crate::locate::locate_exprs;
use crate::locate::locate_filter;
use crate::locate::locate_stage;
use crate::locate::locate_stages;
use crate::locate::lemma_locate_stages;
use crate::model::ExprV;
use crate::model::MatchFilterV;
use crate::model::StageV;
use crate::rewrite::lemma_rewrite_exprs;
use crate::rewrite::lemma_rewrite_stages;
use crate::rewrite::rewrite_expr;
use crate::rewrite::rewrite_exprs;
use crate::rewrite::rewrite_stage;
use crate::rewrite::rewrite_stages;
use crate::table::sql_to_mql;
use vstd::prelude::*;

verus! {

/// Whether a SQL OR node occurs anywhere in an expression, nested pipelines
/// included.
pub open spec fn contains_sql_or_expr(e: ExprV) -> bool
    decreases e,
{
    match e {
        ExprV::SqlOp { op, args } => op == SqlOperator::Or || contains_sql_or_exprs(args),
        ExprV::MqlOp { op, args } => contains_sql_or_exprs(args),
        ExprV::Array { items } => contains_sql_or_exprs(items),
        ExprV::Subquery { pipeline } => contains_sql_or_stages(pipeline),
        ExprV::SubqueryComparison { arg, pipeline } => contains_sql_or_exprs(arg)
            || contains_sql_or_stages(pipeline),
        ExprV::SubqueryExists { pipeline } => contains_sql_or_stages(pipeline),
        _ => false,
    }
}

/// Whether a SQL OR node occurs in any expression of a sequence.
pub open spec fn contains_sql_or_exprs(s: Seq<ExprV>) -> bool
    decreases s,
{
    if s.len() == 0 {
        false
    } else {
        contains_sql_or_expr(s[0]) || contains_sql_or_exprs(s.drop_first())
    }
}

/// Whether a SQL OR node occurs in any expression a stage carries.
pub open spec fn contains_sql_or_stage(st: StageV) -> bool
    decreases st,
{
    match st {
        StageV::Match { filter: MatchFilterV::ExprLanguage(e) } => contains_sql_or_expr(e),
        StageV::Project { expr } => contains_sql_or_expr(expr),
        _ => false,
    }
}

/// Whether a SQL OR node occurs anywhere in a pipeline.
pub open spec fn contains_sql_or_stages(s: Seq<StageV>) -> bool
    decreases s,
{
    if s.len() == 0 {
        false
    } else {
        contains_sql_or_stage(s[0]) || contains_sql_or_stages(s.drop_first())
    }
}

/// A SQL OR node is always rewritten, whatever the enclosing context: the
/// result at its position is the native OR, and its operands are rewritten
/// under a set OR-context.
pub proof fn lemma_or_always_rewritten(args: Seq<ExprV>, within_or: bool)
    ensures
        rewrite_expr(ExprV::SqlOp { op: SqlOperator::Or, args }, within_or) == (ExprV::MqlOp {
            op: MqlOperator::Or,
            args: rewrite_exprs(args, true),
        }),
{
}

/// After the rewrite of an expression, no SQL OR node is left anywhere in it.
pub proof fn lemma_rewrite_leaves_no_sql_or(e: ExprV, within_or: bool)
    ensures
        !contains_sql_or_expr(rewrite_expr(e, within_or)),
    decreases e,
{
    match e {
        ExprV::SqlOp { op, args } => {
            let scope = op == SqlOperator::Or || within_or;
            lemma_rewrite_leaves_no_sql_or_seq(args, scope);
        },
        ExprV::MqlOp { op, args } => {
            lemma_rewrite_leaves_no_sql_or_seq(args, within_or);
        },
        ExprV::Array { items } => {
            lemma_rewrite_leaves_no_sql_or_seq(items, within_or);
        },
        ExprV::Subquery { pipeline } => {
            lemma_rewrite_leaves_no_sql_or_stages(pipeline);
        },
        ExprV::SubqueryComparison { arg, pipeline } => {
            lemma_rewrite_leaves_no_sql_or_seq(arg, false);
            lemma_rewrite_leaves_no_sql_or_stages(pipeline);
        },
        ExprV::SubqueryExists { pipeline } => {
            lemma_rewrite_leaves_no_sql_or_stages(pipeline);
        },
        _ => {},
    }
}

/// After the rewrite of a sequence of expressions, no SQL OR node is left in
/// any of them.
pub proof fn lemma_rewrite_leaves_no_sql_or_seq(s: Seq<ExprV>, within_or: bool)
    ensures
        !contains_sql_or_exprs(rewrite_exprs(s, within_or)),
    decreases s,
{
    if s.len() > 0 {
        lemma_rewrite_leaves_no_sql_or(s[0], within_or);
        lemma_rewrite_leaves_no_sql_or_seq(s.drop_first(), within_or);
        let r = rewrite_exprs(s, within_or);
        assert(r[0] == rewrite_expr(s[0], within_or));
        assert(r.drop_first() =~= rewrite_exprs(s.drop_first(), within_or));
    }
}

/// After the rewrite of a nested pipeline's stage, no SQL OR node is left in
/// the expressions it carries.
pub proof fn lemma_rewrite_leaves_no_sql_or_stage(st: StageV)
    ensures
        !contains_sql_or_stage(rewrite_stage(st)),
    decreases st,
{
    match st {
        StageV::Match { filter: MatchFilterV::ExprLanguage(e) } => {
            lemma_rewrite_leaves_no_sql_or(e, false);
        },
        StageV::Project { expr } => {
            lemma_rewrite_leaves_no_sql_or(expr, false);
        },
        _ => {},
    }
}

/// After the rewrite of a nested pipeline, no SQL OR node is left anywhere in
/// it.
pub proof fn lemma_rewrite_leaves_no_sql_or_stages(s: Seq<StageV>)
    ensures
        !contains_sql_or_stages(rewrite_stages(s)),
    decreases s,
{
    if s.len() > 0 {
        lemma_rewrite_leaves_no_sql_or_stage(s[0]);
        lemma_rewrite_leaves_no_sql_or_stages(s.drop_first());
        let r = rewrite_stages(s);
        assert(r[0] == rewrite_stage(s[0]));
        assert(r.drop_first() =~= rewrite_stages(s.drop_first()));
    }
}

/// After the whole pass, no predicate site of the pipeline holds a SQL OR
/// node anywhere in its expression.
pub proof fn lemma_pass_leaves_no_sql_or_at_sites(ss: Seq<StageV>)
    ensures
        forall|i: int|
            0 <= i < locate_stages(ss).len() ==> match (#[trigger] locate_stages(ss)[i]) {
                StageV::Match { filter: MatchFilterV::ExprLanguage(e) } => !contains_sql_or_expr(
                    e,
                ),
                _ => true,
            },
{
    lemma_locate_stages(ss);
    assert forall|i: int| 0 <= i < locate_stages(ss).len() implies match (#[trigger] locate_stages(ss)[i]) {
        StageV::Match { filter: MatchFilterV::ExprLanguage(e) } => !contains_sql_or_expr(e),
        _ => true,
    } by {
        match ss[i] {
            StageV::Match { filter: MatchFilterV::ExprLanguage(e0) } => {
                lemma_rewrite_leaves_no_sql_or(e0, false);
            },
            _ => {},
        }
    }
}

/// Scope-correct propagation: under a set OR-context, a non-OR SQL operator
/// is rewritten exactly when the table maps it; an unmapped operator stays a
/// SQL node verbatim, and in every case its operands are visited under the
/// unchanged context — an operator's own position never forces its
/// descendants into OR-context.
pub proof fn lemma_scope_correct_propagation(op: SqlOperator, args: Seq<ExprV>, within_or: bool)
    requires
        op != SqlOperator::Or,
    ensures
        within_or && sql_to_mql(op) is Some ==> rewrite_expr(
            ExprV::SqlOp { op, args },
            within_or,
        ) == (ExprV::MqlOp { op: sql_to_mql(op)->Some_0, args: rewrite_exprs(args, within_or) }),
        !(within_or && sql_to_mql(op) is Some) ==> rewrite_expr(
            ExprV::SqlOp { op, args },
            within_or,
        ) == (ExprV::SqlOp { op, args: rewrite_exprs(args, within_or) }),
{
}

/// Sibling isolation: each operand of a node is rewritten under the one
/// enclosing context, independently of its siblings — replacing a sibling by
/// any other tree, an OR included, never changes how an operand is rewritten.
pub proof fn lemma_sibling_isolation(
    args: Seq<ExprV>,
    within_or: bool,
    i: int,
    j: int,
    other: ExprV,
)
    requires
        0 <= i < args.len(),
        0 <= j < args.len(),
        i != j,
    ensures
        rewrite_exprs(args, within_or)[i] == rewrite_expr(args[i], within_or),
        rewrite_exprs(args.update(j, other), within_or)[i] == rewrite_exprs(args, within_or)[i],
{
    lemma_rewrite_exprs(args, within_or);
    lemma_rewrite_exprs(args.update(j, other), within_or);
}

/// Restore on return: the context used for operands that follow an OR node in
/// traversal order is exactly the context from before the OR was entered.
pub proof fn lemma_restore_on_return(args: Seq<ExprV>, within_or: bool, j: int)
    requires
        0 <= j < args.len(),
        args[j] is SqlOp,
    ensures
        forall|i: int|
            j < i < args.len() ==> rewrite_exprs(args, within_or)[i] == rewrite_expr(
                args[i],
                within_or,
            ),
{
    lemma_rewrite_exprs(args, within_or);
}

/// Subquery isolation: a subquery node is rewritten the same way under any
/// enclosing context — OR-context never crosses a subquery boundary.
pub proof fn lemma_subquery_isolation(e: ExprV, b1: bool, b2: bool)
    requires
        e is Subquery || e is SubqueryComparison || e is SubqueryExists,
    ensures
        rewrite_expr(e, b1) == rewrite_expr(e, b2),
{
}

/// Inside a subquery's pipeline, each predicate site begins outside any
/// OR-context: it is rewritten exactly as a fresh visit of that site would
/// rewrite it, so only OR nodes within the nested pipeline can set its
/// context.
pub proof fn lemma_subquery_sites_start_outside_or(pipeline: Seq<StageV>, within_or: bool)
    ensures
        rewrite_expr(ExprV::SubqueryExists { pipeline }, within_or) == (ExprV::SubqueryExists {
            pipeline: rewrite_stages(pipeline),
        }),
        forall|i: int|
            0 <= i < pipeline.len() ==> match (#[trigger] pipeline[i]) {
                StageV::Match { filter: MatchFilterV::ExprLanguage(e) } => rewrite_stages(
                    pipeline,
                )[i] == (StageV::Match {
                    filter: MatchFilterV::ExprLanguage(rewrite_expr(e, false)),
                }),
                _ => true,
            },
{
    lemma_rewrite_stages(pipeline);
}

/// Whether an expression is already in native form: it holds no SQL semantic
/// operator anywhere, nested pipelines included.
pub open spec fn is_native_expr(e: ExprV) -> bool
    decreases e,
{
    match e {
        ExprV::SqlOp { op, args } => false,
        ExprV::MqlOp { op, args } => is_native_exprs(args),
        ExprV::Array { items } => is_native_exprs(items),
        ExprV::Subquery { pipeline } => is_native_stages(pipeline),
        ExprV::SubqueryComparison { arg, pipeline } => is_native_exprs(arg) && is_native_stages(
            pipeline,
        ),
        ExprV::SubqueryExists { pipeline } => is_native_stages(pipeline),
        _ => true,
    }
}

/// Whether every expression of a sequence is already in native form.
pub open spec fn is_native_exprs(s: Seq<ExprV>) -> bool
    decreases s,
{
    if s.len() == 0 {
        true
    } else {
        is_native_expr(s[0]) && is_native_exprs(s.drop_first())
    }
}

/// Whether a predicate site is already in native form.  A native-language
/// filter document is native by definition.
pub open spec fn is_native_filter(f: MatchFilterV) -> bool
    decreases f,
{
    match f {
        MatchFilterV::ExprLanguage(e) => is_native_expr(e),
        MatchFilterV::MatchLanguage(q) => true,
    }
}

/// Whether every expression a stage carries is already in native form.
pub open spec fn is_native_stage(st: StageV) -> bool
    decreases st,
{
    match st {
        StageV::Match { filter } => is_native_filter(filter),
        StageV::Project { expr } => is_native_expr(expr),
        _ => true,
    }
}

/// Whether every expression of a pipeline is already in native form.
pub open spec fn is_native_stages(s: Seq<StageV>) -> bool
    decreases s,
{
    if s.len() == 0 {
        true
    } else {
        is_native_stage(s[0]) && is_native_stages(s.drop_first())
    }
}

/// The rewrite leaves an already-native expression identical, under any
/// context.
pub proof fn lemma_rewrite_fixes_native_expr(e: ExprV, within_or: bool)
    requires
        is_native_expr(e),
    ensures
        rewrite_expr(e, within_or) == e,
    decreases e,
{
    match e {
        ExprV::MqlOp { op, args } => {
            lemma_rewrite_fixes_native_exprs(args, within_or);
        },
        ExprV::Array { items } => {
            lemma_rewrite_fixes_native_exprs(items, within_or);
        },
        ExprV::Subquery { pipeline } => {
            lemma_rewrite_fixes_native_stages(pipeline);
        },
        ExprV::SubqueryComparison { arg, pipeline } => {
            lemma_rewrite_fixes_native_exprs(arg, false);
            lemma_rewrite_fixes_native_stages(pipeline);
        },
        ExprV::SubqueryExists { pipeline } => {
            lemma_rewrite_fixes_native_stages(pipeline);
        },
        _ => {},
    }
}

/// The rewrite leaves a sequence of already-native expressions identical.
pub proof fn lemma_rewrite_fixes_native_exprs(s: Seq<ExprV>, within_or: bool)
    requires
        is_native_exprs(s),
    ensures
        rewrite_exprs(s, within_or) == s,
    decreases s,
{
    if s.len() > 0 {
        lemma_rewrite_fixes_native_expr(s[0], within_or);
        lemma_rewrite_fixes_native_exprs(s.drop_first(), within_or);
        assert(seq![s[0]] + s.drop_first() =~= s);
    } else {
        assert(rewrite_exprs(s, within_or) =~= s);
    }
}

/// The rewrite leaves an already-native stage identical.
pub proof fn lemma_rewrite_fixes_native_stage(st: StageV)
    requires
        is_native_stage(st),
    ensures
        rewrite_stage(st) == st,
    decreases st,
{
    match st {
        StageV::Match { filter: MatchFilterV::ExprLanguage(e) } => {
            lemma_rewrite_fixes_native_expr(e, false);
        },
        StageV::Project { expr } => {
            lemma_rewrite_fixes_native_expr(expr, false);
        },
        _ => {},
    }
}

/// The rewrite leaves an already-native pipeline identical.
pub proof fn lemma_rewrite_fixes_native_stages(s: Seq<StageV>)
    requires
        is_native_stages(s),
    ensures
        rewrite_stages(s) == s,
    decreases s,
{
    if s.len() > 0 {
        lemma_rewrite_fixes_native_stage(s[0]);
        lemma_rewrite_fixes_native_stages(s.drop_first());
        assert(seq![s[0]] + s.drop_first() =~= s);
    } else {
        assert(rewrite_stages(s) =~= s);
    }
}

/// A native-language predicate site passes through the pass untouched.
pub proof fn lemma_native_site_unchanged(q: Seq<char>)
    ensures
        locate_filter(MatchFilterV::MatchLanguage(q)) == MatchFilterV::MatchLanguage(q),
{
}

/// The locator leaves an already-native expression identical.
pub proof fn lemma_locate_fixes_native_expr(e: ExprV)
    requires
        is_native_expr(e),
    ensures
        locate_expr(e) == e,
    decreases e,
{
    match e {
        ExprV::MqlOp { op, args } => {
            lemma_locate_fixes_native_exprs(args);
        },
        ExprV::Array { items } => {
            lemma_locate_fixes_native_exprs(items);
        },
        ExprV::Subquery { pipeline } => {
            lemma_pass_fixes_native_pipeline(pipeline);
        },
        ExprV::SubqueryComparison { arg, pipeline } => {
            lemma_locate_fixes_native_exprs(arg);
            lemma_pass_fixes_native_pipeline(pipeline);
        },
        ExprV::SubqueryExists { pipeline } => {
            lemma_pass_fixes_native_pipeline(pipeline);
        },
        _ => {},
    }
}

/// The locator leaves a sequence of already-native expressions identical.
pub proof fn lemma_locate_fixes_native_exprs(s: Seq<ExprV>)
    requires
        is_native_exprs(s),
    ensures
        locate_exprs(s) == s,
    decreases s,
{
    if s.len() > 0 {
        lemma_locate_fixes_native_expr(s[0]);
        lemma_locate_fixes_native_exprs(s.drop_first());
        assert(seq![s[0]] + s.drop_first() =~= s);
    } else {
        assert(locate_exprs(s) =~= s);
    }
}

/// The locator leaves an already-native stage identical.
pub proof fn lemma_locate_fixes_native_stage(st: StageV)
    requires
        is_native_stage(st),
    ensures
        locate_stage(st) == st,
    decreases st,
{
    match st {
        StageV::Match { filter: MatchFilterV::ExprLanguage(e) } => {
            lemma_rewrite_fixes_native_expr(e, false);
        },
        StageV::Project { expr } => {
            lemma_locate_fixes_native_expr(expr);
        },
        _ => {},
    }
}

/// Idempotence on native input: the whole pass leaves a pipeline whose
/// predicate sites and expressions are already in native form identical.
pub proof fn lemma_pass_fixes_native_pipeline(s: Seq<StageV>)
    requires
        is_native_stages(s),
    ensures
        locate_stages(s) == s,
    decreases s,
{
    if s.len() > 0 {
        lemma_locate_fixes_native_stage(s[0]);
        lemma_pass_fixes_native_pipeline(s.drop_first());
        assert(seq![s[0]] + s.drop_first() =~= s);
    } else {
        assert(locate_stages(s) =~= s);
    }
}

} // verus!

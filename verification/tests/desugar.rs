//! Behavior of the OR-desugaring pass on whole pipelines.

use or_desugar::ast::Expression;
use or_desugar::ast::MatchFilter;
use or_desugar::ast::MatchQuery;
use or_desugar::ast::MqlOperator;
use or_desugar::ast::MqlSemanticOperator;
use or_desugar::ast::SqlOperator;
use or_desugar::ast::SqlSemanticOperator;
use or_desugar::ast::Stage;
use or_desugar::ast::Subquery;
use or_desugar::ast::SubqueryComparison;
use or_desugar::ast::SubqueryExists;
use or_desugar::pass::OrExpressionsDesugarerPass;

fn lit(n: i64) -> Expression {
    Expression::Literal(n)
}

fn field(name: &str) -> Expression {
    Expression::FieldRef(name.to_string())
}

fn sql(op: SqlOperator, args: Vec<Expression>) -> Expression {
    Expression::SqlSemanticOperator(SqlSemanticOperator { op, args })
}

fn mql(op: MqlOperator, args: Vec<Expression>) -> Expression {
    Expression::MqlSemanticOperator(MqlSemanticOperator { op, args })
}

fn expr_match(e: Expression) -> Stage {
    Stage::Match(MatchFilter::ExprLanguage(e))
}

fn sub_exists(pipeline: Vec<Stage>) -> Expression {
    Expression::SubqueryExists(SubqueryExists { pipeline })
}

fn apply(pipeline: Vec<Stage>) -> Vec<Stage> {
    OrExpressionsDesugarerPass.apply(pipeline).unwrap()
}

#[test]
fn or_with_mapped_children_goes_fully_native() {
    let input = vec![expr_match(sql(
        SqlOperator::Or,
        vec![
            sql(SqlOperator::Eq, vec![field("a"), lit(1)]),
            sql(SqlOperator::Lt, vec![field("b"), lit(2)]),
        ],
    ))];
    let expected = vec![expr_match(mql(
        MqlOperator::Or,
        vec![
            mql(MqlOperator::Eq, vec![field("a"), lit(1)]),
            mql(MqlOperator::Lt, vec![field("b"), lit(2)]),
        ],
    ))];
    assert_eq!(apply(input), expected);
}

#[test]
fn unmapped_child_stays_sql_under_native_or() {
    let input = vec![expr_match(sql(
        SqlOperator::Or,
        vec![
            sql(SqlOperator::NullIf, vec![field("x"), lit(0)]),
            sql(SqlOperator::Eq, vec![field("y"), lit(1)]),
        ],
    ))];
    let expected = vec![expr_match(mql(
        MqlOperator::Or,
        vec![
            sql(SqlOperator::NullIf, vec![field("x"), lit(0)]),
            mql(MqlOperator::Eq, vec![field("y"), lit(1)]),
        ],
    ))];
    assert_eq!(apply(input), expected);
}

#[test]
fn operator_outside_the_or_subtree_is_untouched() {
    let input = vec![expr_match(sql(
        SqlOperator::And,
        vec![
            sql(
                SqlOperator::Or,
                vec![
                    sql(SqlOperator::Eq, vec![field("a"), lit(1)]),
                    sql(SqlOperator::Eq, vec![field("b"), lit(2)]),
                ],
            ),
            sql(SqlOperator::Eq, vec![field("c"), lit(3)]),
        ],
    ))];
    // The enclosing AND is not a descendant of any OR, so it and its sibling
    // operand keep their SQL form; only the OR subtree goes native.
    let expected = vec![expr_match(sql(
        SqlOperator::And,
        vec![
            mql(
                MqlOperator::Or,
                vec![
                    mql(MqlOperator::Eq, vec![field("a"), lit(1)]),
                    mql(MqlOperator::Eq, vec![field("b"), lit(2)]),
                ],
            ),
            sql(SqlOperator::Eq, vec![field("c"), lit(3)]),
        ],
    ))];
    assert_eq!(apply(input), expected);
}

#[test]
fn subquery_under_or_keeps_its_own_scope() {
    let input = vec![expr_match(sql(
        SqlOperator::Or,
        vec![
            sql(SqlOperator::Eq, vec![field("a"), lit(1)]),
            sub_exists(vec![expr_match(sql(
                SqlOperator::Eq,
                vec![field("x"), lit(1)],
            ))]),
        ],
    ))];
    // The inner predicate starts outside any OR-context and holds no OR of
    // its own, so it stays a SQL operator; the outer operand goes native.
    let expected = vec![expr_match(mql(
        MqlOperator::Or,
        vec![
            mql(MqlOperator::Eq, vec![field("a"), lit(1)]),
            sub_exists(vec![expr_match(sql(
                SqlOperator::Eq,
                vec![field("x"), lit(1)],
            ))]),
        ],
    ))];
    assert_eq!(apply(input), expected);
}

#[test]
fn or_inside_subquery_rewrites_only_there() {
    let input = vec![expr_match(sql(
        SqlOperator::And,
        vec![
            sub_exists(vec![expr_match(sql(
                SqlOperator::Or,
                vec![sql(SqlOperator::Eq, vec![field("x"), lit(1)]), lit(0)],
            ))]),
            sql(SqlOperator::Eq, vec![field("c"), lit(3)]),
        ],
    ))];
    let expected = vec![expr_match(sql(
        SqlOperator::And,
        vec![
            sub_exists(vec![expr_match(mql(
                MqlOperator::Or,
                vec![mql(MqlOperator::Eq, vec![field("x"), lit(1)]), lit(0)],
            ))]),
            sql(SqlOperator::Eq, vec![field("c"), lit(3)]),
        ],
    ))];
    assert_eq!(apply(input), expected);
}

#[test]
fn nested_or_inside_and_inside_or_rewrites_the_whole_subtree() {
    let input = vec![expr_match(sql(
        SqlOperator::Or,
        vec![
            sql(SqlOperator::Eq, vec![field("a"), lit(1)]),
            sql(
                SqlOperator::And,
                vec![
                    sql(SqlOperator::Eq, vec![field("b"), lit(2)]),
                    sql(SqlOperator::Eq, vec![field("c"), lit(3)]),
                ],
            ),
        ],
    ))];
    // AND has a native mapping and sits under the OR, so it is rewritten
    // along with everything below it.
    let expected = vec![expr_match(mql(
        MqlOperator::Or,
        vec![
            mql(MqlOperator::Eq, vec![field("a"), lit(1)]),
            mql(
                MqlOperator::And,
                vec![
                    mql(MqlOperator::Eq, vec![field("b"), lit(2)]),
                    mql(MqlOperator::Eq, vec![field("c"), lit(3)]),
                ],
            ),
        ],
    ))];
    assert_eq!(apply(input), expected);
}

#[test]
fn context_is_restored_after_an_or_subtree() {
    let input = vec![expr_match(sql(
        SqlOperator::Coalesce,
        vec![
            sql(
                SqlOperator::Or,
                vec![sql(SqlOperator::Eq, vec![field("a"), lit(1)]), lit(0)],
            ),
            sql(SqlOperator::Eq, vec![field("b"), lit(2)]),
        ],
    ))];
    // The operand after the OR is visited under the context from before the
    // OR was entered, so it keeps its SQL form.
    let expected = vec![expr_match(sql(
        SqlOperator::Coalesce,
        vec![
            mql(
                MqlOperator::Or,
                vec![mql(MqlOperator::Eq, vec![field("a"), lit(1)]), lit(0)],
            ),
            sql(SqlOperator::Eq, vec![field("b"), lit(2)]),
        ],
    ))];
    assert_eq!(apply(input), expected);
}

#[test]
fn unmapped_operator_does_not_shield_its_children() {
    let input = vec![expr_match(sql(
        SqlOperator::Or,
        vec![sql(
            SqlOperator::NullIf,
            vec![sql(SqlOperator::Eq, vec![field("a"), lit(1)]), lit(0)],
        )],
    ))];
    // NullIf has no native mapping and stays SQL, but its children are still
    // inside the OR's subtree and are rewritten.
    let expected = vec![expr_match(mql(
        MqlOperator::Or,
        vec![sql(
            SqlOperator::NullIf,
            vec![mql(MqlOperator::Eq, vec![field("a"), lit(1)]), lit(0)],
        )],
    ))];
    assert_eq!(apply(input), expected);
}

#[test]
fn or_context_passes_through_an_array_node() {
    let input = vec![expr_match(sql(
        SqlOperator::Or,
        vec![Expression::Array(vec![sql(
            SqlOperator::Eq,
            vec![field("a"), lit(1)],
        )])],
    ))];
    let expected = vec![expr_match(mql(
        MqlOperator::Or,
        vec![Expression::Array(vec![mql(
            MqlOperator::Eq,
            vec![field("a"), lit(1)],
        )])],
    ))];
    assert_eq!(apply(input), expected);
}

#[test]
fn subquery_comparison_operand_starts_outside_or() {
    let input = vec![expr_match(sql(
        SqlOperator::Or,
        vec![
            sql(SqlOperator::Eq, vec![field("a"), lit(1)]),
            Expression::SubqueryComparison(SubqueryComparison {
                arg: Box::new(sql(SqlOperator::Eq, vec![field("b"), lit(2)])),
                subquery: Subquery {
                    pipeline: vec![expr_match(sql(
                        SqlOperator::Eq,
                        vec![field("x"), lit(1)],
                    ))],
                },
            }),
        ],
    ))];
    let expected = vec![expr_match(mql(
        MqlOperator::Or,
        vec![
            mql(MqlOperator::Eq, vec![field("a"), lit(1)]),
            Expression::SubqueryComparison(SubqueryComparison {
                arg: Box::new(sql(SqlOperator::Eq, vec![field("b"), lit(2)])),
                subquery: Subquery {
                    pipeline: vec![expr_match(sql(
                        SqlOperator::Eq,
                        vec![field("x"), lit(1)],
                    ))],
                },
            }),
        ],
    ))];
    assert_eq!(apply(input), expected);
}

#[test]
fn native_filter_document_passes_through_byte_identical() {
    let input = vec![
        Stage::Match(MatchFilter::MatchLanguage(MatchQuery {
            text: "{\"a\": 1}".to_string(),
        })),
        Stage::Limit(5),
    ];
    let expected = vec![
        Stage::Match(MatchFilter::MatchLanguage(MatchQuery {
            text: "{\"a\": 1}".to_string(),
        })),
        Stage::Limit(5),
    ];
    assert_eq!(apply(input), expected);
}

#[test]
fn native_predicate_expression_passes_through_byte_identical() {
    let input = vec![expr_match(mql(
        MqlOperator::Or,
        vec![
            mql(MqlOperator::Eq, vec![field("a"), lit(1)]),
            mql(MqlOperator::Lt, vec![field("b"), lit(2)]),
        ],
    ))];
    let expected = vec![expr_match(mql(
        MqlOperator::Or,
        vec![
            mql(MqlOperator::Eq, vec![field("a"), lit(1)]),
            mql(MqlOperator::Lt, vec![field("b"), lit(2)]),
        ],
    ))];
    assert_eq!(apply(input), expected);
}

#[test]
fn running_the_pass_twice_changes_nothing_more() {
    let build = || {
        vec![expr_match(sql(
            SqlOperator::And,
            vec![
                sql(
                    SqlOperator::Or,
                    vec![
                        sql(SqlOperator::Eq, vec![field("a"), lit(1)]),
                        sql(SqlOperator::Between, vec![field("b"), lit(2), lit(3)]),
                    ],
                ),
                sql(SqlOperator::Eq, vec![field("c"), lit(3)]),
            ],
        ))]
    };
    let once = apply(build());
    let twice = apply(apply(build()));
    assert_eq!(once, twice);
}

#[test]
fn predicate_inside_a_projection_subquery_is_reached() {
    let input = vec![Stage::Project(Expression::Subquery(Subquery {
        pipeline: vec![expr_match(sql(
            SqlOperator::Or,
            vec![sql(SqlOperator::Eq, vec![field("a"), lit(1)]), lit(0)],
        ))],
    }))];
    let expected = vec![Stage::Project(Expression::Subquery(Subquery {
        pipeline: vec![expr_match(mql(
            MqlOperator::Or,
            vec![mql(MqlOperator::Eq, vec![field("a"), lit(1)]), lit(0)],
        ))],
    }))];
    assert_eq!(apply(input), expected);
}

#[test]
fn projection_expression_itself_is_not_a_predicate_site() {
    let input = vec![Stage::Project(sql(
        SqlOperator::Or,
        vec![sql(SqlOperator::Eq, vec![field("a"), lit(1)]), lit(0)],
    ))];
    let expected = vec![Stage::Project(sql(
        SqlOperator::Or,
        vec![sql(SqlOperator::Eq, vec![field("a"), lit(1)]), lit(0)],
    ))];
    assert_eq!(apply(input), expected);
}

#[test]
fn empty_pipeline_yields_empty_pipeline() {
    assert_eq!(apply(vec![]), Vec::<Stage>::new());
    assert!(OrExpressionsDesugarerPass.apply(vec![]).is_ok());
}

#[test]
fn non_predicate_stages_pass_through() {
    let input = vec![
        Stage::Collection("orders".to_string()),
        Stage::Limit(10),
        expr_match(lit(1)),
    ];
    let expected = vec![
        Stage::Collection("orders".to_string()),
        Stage::Limit(10),
        expr_match(lit(1)),
    ];
    assert_eq!(apply(input), expected);
}

#[test]
fn operand_order_is_preserved() {
    let input = vec![expr_match(sql(
        SqlOperator::Or,
        vec![
            sql(SqlOperator::Gte, vec![field("a"), lit(1)]),
            sql(SqlOperator::NullIf, vec![field("b"), lit(2)]),
            sql(SqlOperator::Ne, vec![field("c"), lit(3)]),
        ],
    ))];
    let expected = vec![expr_match(mql(
        MqlOperator::Or,
        vec![
            mql(MqlOperator::Gte, vec![field("a"), lit(1)]),
            sql(SqlOperator::NullIf, vec![field("b"), lit(2)]),
            mql(MqlOperator::Ne, vec![field("c"), lit(3)]),
        ],
    ))];
    assert_eq!(apply(input), expected);
}

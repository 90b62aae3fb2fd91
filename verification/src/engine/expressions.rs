//! Contracts of the engine's expression constructors.
//!
//! Each of them builds one node around its operands and does nothing else,
//! so each contract names the node that comes back.

use crate::tree::{AggregateKind, ColumnRef, ExprTree, ScalarKind};
use datafusion::logical_expr::Operator as EngineOperator;
use datafusion::prelude::Expr as EngineExpr;
use vstd::prelude::*;

verus! {

/// The shape of an engine expression.
pub uninterp spec fn expr_tree(value: EngineExpr) -> ExprTree;

/// The column that the engine reads out of a possibly qualified name: it
/// splits the text at unquoted dots and folds unquoted identifiers to lower
/// case, as `Column::from_qualified_name` does.
pub uninterp spec fn column_ref(name: Seq<char>) -> ColumnRef;

/// The shapes of a list of engine expressions, in order.
pub open spec fn trees(values: Seq<EngineExpr>) -> Seq<ExprTree> {
    values.map_values(|value: EngineExpr| expr_tree(value))
}

/// The shapes of a list of lists of engine expressions.
pub open spec fn tree_rows(rows: Seq<Vec<EngineExpr>>) -> Seq<Seq<ExprTree>> {
    rows.map_values(|row: Vec<EngineExpr>| trees(row@))
}

/// `datafusion::prelude::lit` on a `String`: a UTF-8 string constant holding
/// that text.
#[verifier::external_body]
pub(crate) fn literal(value: String) -> (made: EngineExpr)
    ensures
        expr_tree(made) == ExprTree::Literal(value@),
{
    datafusion::prelude::lit(value)
}

/// `datafusion::prelude::col` on a `String`: a reference to the column that
/// the engine parses out of the name.
#[verifier::external_body]
pub(crate) fn column(name: String) -> (made: EngineExpr)
    ensures
        expr_tree(made) == ExprTree::Column(column_ref(name@)),
{
    datafusion::prelude::col(name)
}

/// `Expr::alias` with a `String`: the operand under an alias node of that name.
#[verifier::external_body]
pub(crate) fn alias(operand: EngineExpr, name: String) -> (made: EngineExpr)
    ensures
        expr_tree(made) == expr_tree(operand).aliased(name@),
{
    operand.alias(name)
}

/// `Clone` for expressions copies the tree.
pub assume_specification [<EngineExpr as Clone>::clone](operand: &EngineExpr) -> (made: EngineExpr)
    ensures
        made == *operand,
;

/// `Expr::unalias` drops a top-level alias node and keeps anything else.
pub assume_specification [EngineExpr::unalias](operand: EngineExpr) -> (made: EngineExpr)
    ensures
        expr_tree(made) == expr_tree(operand).unaliased(),
;

/// `Expr::lt_eq` is the binary node with `LtEq`.
pub assume_specification [EngineExpr::lt_eq](left: EngineExpr, right: EngineExpr) -> (made: EngineExpr)
    ensures
        expr_tree(made) == ExprTree::binary(expr_tree(left), EngineOperator::LtEq, expr_tree(right)),
;

/// `Expr::and` is the binary node with `And`.
pub assume_specification [EngineExpr::and](left: EngineExpr, right: EngineExpr) -> (made: EngineExpr)
    ensures
        expr_tree(made) == ExprTree::binary(expr_tree(left), EngineOperator::And, expr_tree(right)),
;

/// `Expr::or` is the binary node with `Or`.
pub assume_specification [EngineExpr::or](left: EngineExpr, right: EngineExpr) -> (made: EngineExpr)
    ensures
        expr_tree(made) == ExprTree::binary(expr_tree(left), EngineOperator::Or, expr_tree(right)),
;

/// `Expr::modulus` is the binary node with `Modulo`.
pub assume_specification [EngineExpr::modulus](left: EngineExpr, right: EngineExpr) -> (made: EngineExpr)
    ensures
        expr_tree(made) == ExprTree::binary(expr_tree(left), EngineOperator::Modulo, expr_tree(right)),
;

/// `Expr::not` flips the flag of a `Like`, `ILike` or `SimilarTo` node and
/// wraps every other expression in `Not`.
pub assume_specification [EngineExpr::not](operand: EngineExpr) -> (made: EngineExpr)
    ensures
        expr_tree(made) == expr_tree(operand).negation(),
;

/// `Expr::like` is a `Like` node, not negated, with no escape character.
pub assume_specification [EngineExpr::like](operand: EngineExpr, pattern: EngineExpr) -> (made: EngineExpr)
    ensures
        expr_tree(made) == expr_tree(operand).like(expr_tree(pattern), false),
;

/// `Expr::not_like` is a negated `Like` node with no escape character.
pub assume_specification [EngineExpr::not_like](operand: EngineExpr, pattern: EngineExpr) -> (made: EngineExpr)
    ensures
        expr_tree(made) == expr_tree(operand).like(expr_tree(pattern), true),
;

/// `Expr::ilike` is an `ILike` node, not negated, with no escape character.
pub assume_specification [EngineExpr::ilike](operand: EngineExpr, pattern: EngineExpr) -> (made: EngineExpr)
    ensures
        expr_tree(made) == expr_tree(operand).ilike(expr_tree(pattern), false),
;

/// `Expr::not_ilike` is a negated `ILike` node with no escape character.
pub assume_specification [EngineExpr::not_ilike](operand: EngineExpr, pattern: EngineExpr) -> (made: EngineExpr)
    ensures
        expr_tree(made) == expr_tree(operand).ilike(expr_tree(pattern), true),
;

/// `Expr::in_list` is an `InList` node over the operand and the items.
pub assume_specification [EngineExpr::in_list](
    operand: EngineExpr,
    items: Vec<EngineExpr>,
    negated: bool,
) -> (made: EngineExpr)
    ensures
        expr_tree(made) == expr_tree(operand).in_list(trees(items@), negated),
;

/// `Expr::sort` is a `Sort` node with the given direction and null placement.
pub assume_specification [EngineExpr::sort](operand: EngineExpr, asc: bool, nulls_first: bool) -> (made: EngineExpr)
    ensures
        expr_tree(made) == expr_tree(operand).sort_key(asc, nulls_first),
;

/// `Expr::is_null` wraps the operand in `IsNull`.
pub assume_specification [EngineExpr::is_null](operand: EngineExpr) -> (made: EngineExpr)
    ensures
        expr_tree(made) == ExprTree::IsNull(Box::new(expr_tree(operand))),
;

/// `Expr::is_not_null` wraps the operand in `IsNotNull`.
pub assume_specification [EngineExpr::is_not_null](operand: EngineExpr) -> (made: EngineExpr)
    ensures
        expr_tree(made) == ExprTree::IsNotNull(Box::new(expr_tree(operand))),
;

/// `Expr::is_true` wraps the operand in `IsTrue`.
pub assume_specification [EngineExpr::is_true](operand: EngineExpr) -> (made: EngineExpr)
    ensures
        expr_tree(made) == ExprTree::IsTrue(Box::new(expr_tree(operand))),
;

/// `Expr::is_not_true` wraps the operand in `IsNotTrue`.
pub assume_specification [EngineExpr::is_not_true](operand: EngineExpr) -> (made: EngineExpr)
    ensures
        expr_tree(made) == ExprTree::IsNotTrue(Box::new(expr_tree(operand))),
;

/// `Expr::is_false` wraps the operand in `IsFalse`.
pub assume_specification [EngineExpr::is_false](operand: EngineExpr) -> (made: EngineExpr)
    ensures
        expr_tree(made) == ExprTree::IsFalse(Box::new(expr_tree(operand))),
;

/// `Expr::is_not_false` wraps the operand in `IsNotFalse`.
pub assume_specification [EngineExpr::is_not_false](operand: EngineExpr) -> (made: EngineExpr)
    ensures
        expr_tree(made) == ExprTree::IsNotFalse(Box::new(expr_tree(operand))),
;

/// `Expr::is_unknown` wraps the operand in `IsUnknown`.
pub assume_specification [EngineExpr::is_unknown](operand: EngineExpr) -> (made: EngineExpr)
    ensures
        expr_tree(made) == ExprTree::IsUnknown(Box::new(expr_tree(operand))),
;

/// `Expr::is_not_unknown` wraps the operand in `IsNotUnknown`.
pub assume_specification [EngineExpr::is_not_unknown](operand: EngineExpr) -> (made: EngineExpr)
    ensures
        expr_tree(made) == ExprTree::IsNotUnknown(Box::new(expr_tree(operand))),
;

/// `binary_expr` is the binary node with the given operator.
pub assume_specification [datafusion::prelude::binary_expr](
    left: EngineExpr,
    op: EngineOperator,
    right: EngineExpr,
) -> (made: EngineExpr)
    ensures
        expr_tree(made) == ExprTree::binary(expr_tree(left), op, expr_tree(right)),
;

/// The free function `and` is the binary node with `And`.
pub assume_specification [datafusion::prelude::and](left: EngineExpr, right: EngineExpr) -> (made: EngineExpr)
    ensures
        expr_tree(made) == ExprTree::binary(expr_tree(left), EngineOperator::And, expr_tree(right)),
;

/// The free function `or` is the binary node with `Or`.
pub assume_specification [datafusion::prelude::or](left: EngineExpr, right: EngineExpr) -> (made: EngineExpr)
    ensures
        expr_tree(made) == ExprTree::binary(expr_tree(left), EngineOperator::Or, expr_tree(right)),
;

/// `min` is the `Min` aggregate of one argument, not distinct, unfiltered.
pub assume_specification [datafusion::prelude::min](operand: EngineExpr) -> (made: EngineExpr)
    ensures
        expr_tree(made) == ExprTree::aggregate(AggregateKind::Min, seq![expr_tree(operand)], false),
;

/// `max` is the `Max` aggregate of one argument, not distinct, unfiltered.
pub assume_specification [datafusion::prelude::max](operand: EngineExpr) -> (made: EngineExpr)
    ensures
        expr_tree(made) == ExprTree::aggregate(AggregateKind::Max, seq![expr_tree(operand)], false),
;

/// `sum` is the `Sum` aggregate of one argument, not distinct, unfiltered.
pub assume_specification [datafusion::prelude::sum](operand: EngineExpr) -> (made: EngineExpr)
    ensures
        expr_tree(made) == ExprTree::aggregate(AggregateKind::Sum, seq![expr_tree(operand)], false),
;

/// `avg` is the `Avg` aggregate of one argument, not distinct, unfiltered.
pub assume_specification [datafusion::prelude::avg](operand: EngineExpr) -> (made: EngineExpr)
    ensures
        expr_tree(made) == ExprTree::aggregate(AggregateKind::Avg, seq![expr_tree(operand)], false),
;

/// `count` is the `Count` aggregate of one argument, not distinct, unfiltered.
pub assume_specification [datafusion::prelude::count](operand: EngineExpr) -> (made: EngineExpr)
    ensures
        expr_tree(made) == ExprTree::aggregate(AggregateKind::Count, seq![expr_tree(operand)], false),
;

/// `count_distinct` is the `Count` aggregate of one argument with the
/// distinct flag set.
pub assume_specification [datafusion::prelude::count_distinct](operand: EngineExpr) -> (made: EngineExpr)
    ensures
        expr_tree(made) == ExprTree::aggregate(AggregateKind::Count, seq![expr_tree(operand)], true),
;

/// `approx_distinct` is the `ApproxDistinct` aggregate of one argument.
pub assume_specification [datafusion::prelude::approx_distinct](operand: EngineExpr) -> (made: EngineExpr)
    ensures
        expr_tree(made) == ExprTree::aggregate(
            AggregateKind::ApproxDistinct,
            seq![expr_tree(operand)],
            false,
        ),
;

/// `approx_median` is the `ApproxMedian` aggregate of one argument.
pub assume_specification [datafusion::prelude::approx_median](operand: EngineExpr) -> (made: EngineExpr)
    ensures
        expr_tree(made) == ExprTree::aggregate(
            AggregateKind::ApproxMedian,
            seq![expr_tree(operand)],
            false,
        ),
;

/// `approx_percentile_cont` is the `ApproxPercentileCont` aggregate of the
/// operand and the percentile, in that order.
pub assume_specification [datafusion::prelude::approx_percentile_cont](
    operand: EngineExpr,
    percentile: EngineExpr,
) -> (made: EngineExpr)
    ensures
        expr_tree(made) == ExprTree::aggregate(
            AggregateKind::ApproxPercentileCont,
            seq![expr_tree(operand), expr_tree(percentile)],
            false,
        ),
;

/// `approx_percentile_cont_with_weight` is the
/// `ApproxPercentileContWithWeight` aggregate of the operand, the weight and
/// the percentile, in that order.
pub assume_specification [datafusion::prelude::approx_percentile_cont_with_weight](
    operand: EngineExpr,
    weight: EngineExpr,
    percentile: EngineExpr,
) -> (made: EngineExpr)
    ensures
        expr_tree(made) == ExprTree::aggregate(
            AggregateKind::ApproxPercentileContWithWeight,
            seq![expr_tree(operand), expr_tree(weight), expr_tree(percentile)],
            false,
        ),
;

/// The free function `in_list` is an `InList` node over the operand and the items.
pub assume_specification [datafusion::prelude::in_list](
    operand: EngineExpr,
    items: Vec<EngineExpr>,
    negated: bool,
) -> (made: EngineExpr)
    ensures
        expr_tree(made) == expr_tree(operand).in_list(trees(items@), negated),
;

/// `concat` is a call of `Concat` on the arguments, in order.
pub assume_specification [datafusion::prelude::concat](args: &[EngineExpr]) -> (made: EngineExpr)
    ensures
        expr_tree(made) == ExprTree::scalar(ScalarKind::Concat, trees(args@)),
;

/// `concat_ws` is a call of `ConcatWithSeparator` on the separator followed
/// by the other arguments.
pub assume_specification [datafusion::prelude::concat_ws](
    separator: EngineExpr,
    rest: Vec<EngineExpr>,
) -> (made: EngineExpr)
    ensures
        expr_tree(made) == ExprTree::scalar(
            ScalarKind::ConcatWithSeparator,
            seq![expr_tree(separator)] + trees(rest@),
        ),
;

/// `random` is a call of `Random` without arguments.
pub assume_specification [datafusion::prelude::random]() -> (made: EngineExpr)
    ensures
        expr_tree(made) == ExprTree::scalar(ScalarKind::Random, Seq::empty()),
;

/// `grouping_set` is the `GroupingSets` node over the given lists.
pub assume_specification [datafusion::prelude::grouping_set](sets: Vec<Vec<EngineExpr>>) -> (made: EngineExpr)
    ensures
        expr_tree(made) == ExprTree::GroupingSets(tree_rows(sets@)),
;

/// `cube` is the `Cube` node over the given expressions.
pub assume_specification [datafusion::prelude::cube](items: Vec<EngineExpr>) -> (made: EngineExpr)
    ensures
        expr_tree(made) == ExprTree::Cube(trees(items@)),
;

/// `rollup` is the `Rollup` node over the given expressions.
pub assume_specification [datafusion::prelude::rollup](items: Vec<EngineExpr>) -> (made: EngineExpr)
    ensures
        expr_tree(made) == ExprTree::Rollup(trees(items@)),
;

/// The free function `is_null` wraps the operand in `IsNull`.
pub assume_specification [datafusion::prelude::is_null](operand: EngineExpr) -> (made: EngineExpr)
    ensures
        expr_tree(made) == ExprTree::IsNull(Box::new(expr_tree(operand))),
;

/// The free function `is_true` wraps the operand in `IsTrue`.
pub assume_specification [datafusion::prelude::is_true](operand: EngineExpr) -> (made: EngineExpr)
    ensures
        expr_tree(made) == ExprTree::IsTrue(Box::new(expr_tree(operand))),
;

/// The free function `is_not_true` wraps the operand in `IsNotTrue`.
pub assume_specification [datafusion::prelude::is_not_true](operand: EngineExpr) -> (made: EngineExpr)
    ensures
        expr_tree(made) == ExprTree::IsNotTrue(Box::new(expr_tree(operand))),
;

/// The free function `is_false` wraps the operand in `IsFalse`.
pub assume_specification [datafusion::prelude::is_false](operand: EngineExpr) -> (made: EngineExpr)
    ensures
        expr_tree(made) == ExprTree::IsFalse(Box::new(expr_tree(operand))),
;

/// The free function `is_not_false` wraps the operand in `IsNotFalse`.
pub assume_specification [datafusion::prelude::is_not_false](operand: EngineExpr) -> (made: EngineExpr)
    ensures
        expr_tree(made) == ExprTree::IsNotFalse(Box::new(expr_tree(operand))),
;

/// The free function `is_unknown` wraps the operand in `IsUnknown`.
pub assume_specification [datafusion::prelude::is_unknown](operand: EngineExpr) -> (made: EngineExpr)
    ensures
        expr_tree(made) == ExprTree::IsUnknown(Box::new(expr_tree(operand))),
;

/// The free function `is_not_unknown` wraps the operand in `IsNotUnknown`.
pub assume_specification [datafusion::prelude::is_not_unknown](operand: EngineExpr) -> (made: EngineExpr)
    ensures
        expr_tree(made) == ExprTree::IsNotUnknown(Box::new(expr_tree(operand))),
;

} // verus!

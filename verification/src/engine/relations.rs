//! Contracts of the engine's plan-building methods.
//!
//! Building a plan validates it against schemas, which takes the engine
//! thousands of lines. So the contracts give each outcome a name, a function
//! of the arguments, and add the few facts that the engine's source shows at
//! a glance. `DataFrame::sort` is the exception: it collects the columns that
//! it has to add by walking a hash set, so two processes may build different
//! plans from the same arguments, and its outcome has no name.

use datafusion::error::DataFusionError;
use datafusion::prelude::DataFrame as EngineFrame;
use datafusion::prelude::Expr as EngineExpr;
use datafusion::prelude::JoinType as EngineJoinType;
use vstd::prelude::*;

verus! {

/// The texts of a list of string slices.
pub open spec fn texts(names: Seq<&str>) -> Seq<Seq<char>> {
    names.map_values(|name: &str| name@)
}

/// What the engine reports when the two key lists of a join differ in length.
pub open spec fn arity_mismatch_text() -> Seq<char> {
    "Error during planning: left_keys and right_keys were not the same length"@
}

/// What `DataFusionError` displays as.
pub uninterp spec fn error_text(failure: DataFusionError) -> Seq<char>;

/// What `DataFrame::select_columns` makes of a plan and column names.
pub uninterp spec fn select_columns_outcome(frame: EngineFrame, columns: Seq<Seq<char>>) -> Result<
    EngineFrame,
    DataFusionError,
>;

/// What `DataFrame::select` makes of a plan and a projection list.
pub uninterp spec fn select_outcome(frame: EngineFrame, projection: Seq<EngineExpr>) -> Result<
    EngineFrame,
    DataFusionError,
>;

/// What `DataFrame::filter` makes of a plan and a predicate.
pub uninterp spec fn filter_outcome(frame: EngineFrame, predicate: EngineExpr) -> Result<
    EngineFrame,
    DataFusionError,
>;

/// What `DataFrame::aggregate` makes of a plan, grouping expressions and
/// aggregate expressions.
pub uninterp spec fn aggregate_outcome(
    frame: EngineFrame,
    groups: Seq<EngineExpr>,
    aggregates: Seq<EngineExpr>,
) -> Result<EngineFrame, DataFusionError>;

/// What `DataFrame::limit` makes of a plan and two row counts.
pub uninterp spec fn limit_outcome(frame: EngineFrame, skip: usize, fetch: Option<usize>) -> Result<
    EngineFrame,
    DataFusionError,
>;

/// What `DataFrame::union` makes of two plans.
pub uninterp spec fn union_outcome(frame: EngineFrame, other: EngineFrame) -> Result<
    EngineFrame,
    DataFusionError,
>;

/// What `DataFrame::union_distinct` makes of two plans.
pub uninterp spec fn union_distinct_outcome(frame: EngineFrame, other: EngineFrame) -> Result<
    EngineFrame,
    DataFusionError,
>;

/// What `DataFrame::distinct` makes of a plan.
pub uninterp spec fn distinct_outcome(frame: EngineFrame) -> Result<EngineFrame, DataFusionError>;

/// What `DataFrame::join` makes of two plans, a join type, the key columns of
/// each side and a residual filter.
pub uninterp spec fn join_outcome(
    frame: EngineFrame,
    right: EngineFrame,
    join_type: EngineJoinType,
    left_columns: Seq<Seq<char>>,
    right_columns: Seq<Seq<char>>,
    filter: Option<EngineExpr>,
) -> Result<EngineFrame, DataFusionError>;

/// `Display` for `DataFusionError`, through `to_string`.
#[verifier::external_body]
pub(crate) fn display_text(failure: &DataFusionError) -> (text: String)
    ensures
        text@ == error_text(*failure),
{
    failure.to_string()
}

/// `Clone` for a `DataFrame` copies the plan and keeps the session.
pub assume_specification [<EngineFrame as Clone>::clone](frame: &EngineFrame) -> (made: EngineFrame)
    ensures
        made == *frame,
;

/// `DataFrame::select_columns`: the outcome is a function of the plan and the names.
pub assume_specification [EngineFrame::select_columns](frame: EngineFrame, columns: &[&str]) -> (made: Result<
    EngineFrame,
    DataFusionError,
>)
    ensures
        made == select_columns_outcome(frame, texts(columns@)),
;

/// `DataFrame::select`: the outcome is a function of the plan and the list.
pub assume_specification [EngineFrame::select](frame: EngineFrame, projection: Vec<EngineExpr>) -> (made: Result<
    EngineFrame,
    DataFusionError,
>)
    ensures
        made == select_outcome(frame, projection@),
;

/// `DataFrame::filter`: the outcome is a function of the plan and the predicate.
pub assume_specification [EngineFrame::filter](frame: EngineFrame, predicate: EngineExpr) -> (made: Result<
    EngineFrame,
    DataFusionError,
>)
    ensures
        made == filter_outcome(frame, predicate),
;

/// `DataFrame::aggregate`: the outcome is a function of the plan and the two lists.
pub assume_specification [EngineFrame::aggregate](
    frame: EngineFrame,
    groups: Vec<EngineExpr>,
    aggregates: Vec<EngineExpr>,
) -> (made: Result<EngineFrame, DataFusionError>)
    ensures
        made == aggregate_outcome(frame, groups@, aggregates@),
;

/// `DataFrame::limit` wraps the plan in a limit node and cannot fail.
pub assume_specification [EngineFrame::limit](frame: EngineFrame, skip: usize, fetch: Option<usize>) -> (made: Result<
    EngineFrame,
    DataFusionError,
>)
    ensures
        made == limit_outcome(frame, skip, fetch),
        made is Ok,
;

/// `DataFrame::union`: the outcome is a function of the two plans.
pub assume_specification [EngineFrame::union](frame: EngineFrame, other: EngineFrame) -> (made: Result<
    EngineFrame,
    DataFusionError,
>)
    ensures
        made == union_outcome(frame, other),
;

/// `DataFrame::union_distinct`: the outcome is a function of the two plans.
pub assume_specification [EngineFrame::union_distinct](frame: EngineFrame, other: EngineFrame) -> (made: Result<
    EngineFrame,
    DataFusionError,
>)
    ensures
        made == union_distinct_outcome(frame, other),
;

/// `DataFrame::distinct` wraps the plan in a distinct node and cannot fail.
pub assume_specification [EngineFrame::distinct](frame: EngineFrame) -> (made: Result<
    EngineFrame,
    DataFusionError,
>)
    ensures
        made == distinct_outcome(frame),
        made is Ok,
;

/// `DataFrame::sort`: nothing is promised of the outcome.
pub assume_specification [EngineFrame::sort](frame: EngineFrame, keys: Vec<EngineExpr>) -> Result<
    EngineFrame,
    DataFusionError,
>;

/// `DataFrame::join`: the outcome is a function of the arguments. Before
/// anything else the engine compares the lengths of the two key lists, and
/// reports a planning error if they differ.
pub assume_specification [EngineFrame::join](
    frame: EngineFrame,
    right: EngineFrame,
    join_type: EngineJoinType,
    left_columns: &[&str],
    right_columns: &[&str],
    filter: Option<EngineExpr>,
) -> (made: Result<EngineFrame, DataFusionError>)
    ensures
        made == join_outcome(
            frame,
            right,
            join_type,
            texts(left_columns@),
            texts(right_columns@),
            filter,
        ),
        left_columns@.len() != right_columns@.len() ==> made is Err && error_text(made->Err_0)
            == arity_mismatch_text(),
;

} // verus!

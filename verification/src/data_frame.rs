//! Relation handles.

use crate::engine::relations::{
    aggregate_outcome, arity_mismatch_text, display_text, distinct_outcome, error_text,
    filter_outcome, join_outcome, limit_outcome, select_columns_outcome, select_outcome, texts,
    union_distinct_outcome, union_outcome,
};
use crate::expr::{all_present, engines, values, Expr};
use datafusion::error::DataFusionError;
use datafusion::prelude::DataFrame as EngineFrame;
use datafusion::prelude::Expr as EngineExpr;
use datafusion::prelude::JoinType as EngineJoinType;
use vstd::prelude::*;

verus! {

/// Join type
#[derive(Clone, Copy, Debug, PartialEq, Eq, Hash)]
pub enum JoinType {
    /// Inner Join
    Inner,
    /// Left Join
    Left,
    /// Right Join
    Right,
    /// Full Join
    Full,
    /// Left Semi Join
    LeftSemi,
    /// Right Semi Join
    RightSemi,
    /// Left Anti Join
    LeftAnti,
    /// Right Anti Join
    RightAnti,
}

impl JoinType {
    /// The engine's join type that this one stands for: the one of the same
    /// name.
    pub open spec fn engine_join_type(self) -> EngineJoinType {
        match self {
            JoinType::Inner => EngineJoinType::Inner,
            JoinType::Left => EngineJoinType::Left,
            JoinType::Right => EngineJoinType::Right,
            JoinType::Full => EngineJoinType::Full,
            JoinType::LeftSemi => EngineJoinType::LeftSemi,
            JoinType::RightSemi => EngineJoinType::RightSemi,
            JoinType::LeftAnti => EngineJoinType::LeftAnti,
            JoinType::RightAnti => EngineJoinType::RightAnti,
        }
    }

    /// Translating is one to one: two join types that the engine sees as the
    /// same join type are the same.
    pub proof fn translation_is_one_to_one(self, other: JoinType)
        requires
            self.engine_join_type() == other.engine_join_type(),
        ensures
            self == other,
    {
    }

    /// Translating is onto: every join type of the engine has one here.
    pub proof fn translation_is_onto(engine: EngineJoinType)
        ensures
            exists|join_type: JoinType| join_type.engine_join_type() == engine,
    {
        match engine {
            EngineJoinType::Inner => assert(JoinType::Inner.engine_join_type() == engine),
            EngineJoinType::Left => assert(JoinType::Left.engine_join_type() == engine),
            EngineJoinType::Right => assert(JoinType::Right.engine_join_type() == engine),
            EngineJoinType::Full => assert(JoinType::Full.engine_join_type() == engine),
            EngineJoinType::LeftSemi => assert(JoinType::LeftSemi.engine_join_type() == engine),
            EngineJoinType::RightSemi => assert(JoinType::RightSemi.engine_join_type() == engine),
            EngineJoinType::LeftAnti => assert(JoinType::LeftAnti.engine_join_type() == engine),
            EngineJoinType::RightAnti => assert(JoinType::RightAnti.engine_join_type() == engine),
        }
    }
}

impl From<JoinType> for EngineJoinType {
    fn from(value: JoinType) -> (engine: Self) {
        match value {
            JoinType::Inner => EngineJoinType::Inner,
            JoinType::Left => EngineJoinType::Left,
            JoinType::Right => EngineJoinType::Right,
            JoinType::Full => EngineJoinType::Full,
            JoinType::LeftSemi => EngineJoinType::LeftSemi,
            JoinType::RightSemi => EngineJoinType::RightSemi,
            JoinType::LeftAnti => EngineJoinType::LeftAnti,
            JoinType::RightAnti => EngineJoinType::RightAnti,
        }
    }
}

impl vstd::std_specs::convert::FromSpecImpl<JoinType> for EngineJoinType {
    open spec fn obeys_from_spec() -> bool {
        true
    }

    open spec fn from_spec(value: JoinType) -> Self {
        value.engine_join_type()
    }
}

/// The one kind of failure that a chained call reports: the engine refused
/// the plan. It carries what the engine reported.
#[derive(Debug)]
pub struct PlanError {
    cause: DataFusionError,
}

impl PlanError {
    /// What the engine reported.
    pub closed spec fn cause(&self) -> DataFusionError {
        self.cause
    }

    /// The engine's message.
    pub open spec fn text(&self) -> Seq<char> {
        error_text(self.cause())
    }

    /// Wraps what the engine reported.
    pub fn new(cause: DataFusionError) -> (failure: Self)
        ensures
            failure.cause() == cause,
    {
        Self { cause }
    }

    /// The engine's message.
    pub fn message(&self) -> (text: String)
        ensures
            text@ == self.text(),
    {
        display_text(&self.cause)
    }

    /// Hands out what the engine reported.
    pub fn into_cause(self) -> (cause: DataFusionError)
        ensures
            cause == self.cause(),
    {
        self.cause
    }
}

/// A handle on one relation of the engine: a logical plan that nothing has
/// run yet.
///
/// The handle has one slot, which holds the relation or is empty. Every
/// chained method takes the relation out of the slot and hands it to the
/// engine. What the engine builds goes back into the slot. If the engine
/// refuses, the call reports that and the slot stays empty: the handle is
/// poisoned. On a poisoned handle every chained method does nothing and
/// reports success, and no relation can be read from it.
pub struct DataFrame {
    pub(crate) inner: Option<EngineFrame>,
}

impl DataFrame {
    /// What the slot holds.
    pub closed spec fn slot(&self) -> Option<EngineFrame> {
        self.inner
    }

    /// The handle as a value: what its slot holds.
    pub open spec fn view(&self) -> Option<EngineFrame> {
        self.slot()
    }

    /// Whether the slot holds a relation.
    pub open spec fn is_present(&self) -> bool {
        self.slot() is Some
    }

    /// The relation in the slot.
    pub open spec fn plan(&self) -> EngineFrame
        recommends
            self.is_present(),
    {
        self.slot()->0
    }

    /// A call that found a relation in the slot and got `outcome` from the
    /// engine: what the engine built is in the slot and the handle comes
    /// back, or the slot is empty and the engine's refusal is reported.
    pub open spec fn replaced(
        outcome: Result<EngineFrame, DataFusionError>,
        after: DataFrame,
        reported: Result<&DataFrame, PlanError>,
    ) -> bool {
        match outcome {
            Ok(next) => {
                &&& after@ == Some(next)
                &&& reported matches Ok(handle)
                &&& *handle == after
            },
            Err(cause) => {
                &&& after@ is None
                &&& reported matches Err(failure)
                &&& failure.cause() == cause
            },
        }
    }

    /// A call that found the slot empty: it stays empty, and the handle comes
    /// back as if the call had succeeded.
    pub open spec fn untouched(after: DataFrame, reported: Result<&DataFrame, PlanError>) -> bool {
        &&& after@ is None
        &&& reported matches Ok(handle)
        &&& *handle == after
    }

    /// One chained call, from the handle before it to the handle after it and
    /// what the call reports, where `outcome` is what the engine makes of the
    /// relation in the slot.
    pub open spec fn stepped(
        before: DataFrame,
        outcome: Result<EngineFrame, DataFusionError>,
        after: DataFrame,
        reported: Result<&DataFrame, PlanError>,
    ) -> bool {
        if before.is_present() {
            Self::replaced(outcome, after, reported)
        } else {
            Self::untouched(after, reported)
        }
    }

    /// What holds of every chained call, whatever the engine makes of the
    /// relation: the call reports a failure only where it found a relation,
    /// and then the slot is empty; otherwise it hands the handle back, and the
    /// slot is filled if and only if it was filled before.
    pub open spec fn chained(
        before: DataFrame,
        after: DataFrame,
        reported: Result<&DataFrame, PlanError>,
    ) -> bool {
        match reported {
            Ok(handle) => *handle == after && after.is_present() == before.is_present(),
            Err(_) => before.is_present() && !after.is_present(),
        }
    }

    /// A step is a chained call: it fails exactly where the slot was filled
    /// and the engine refused, it reports what the engine reported, and where
    /// the engine built a relation, that relation is in the slot afterwards.
    pub proof fn step_is_chained(
        before: DataFrame,
        outcome: Result<EngineFrame, DataFusionError>,
        after: DataFrame,
        reported: Result<&DataFrame, PlanError>,
    )
        requires
            Self::stepped(before, outcome, after, reported),
        ensures
            Self::chained(before, after, reported),
            reported is Err <==> before.is_present() && outcome is Err,
            reported matches Err(failure) ==> failure.cause() == outcome->Err_0,
            before.is_present() ==> (outcome matches Ok(next) ==> after@ == Some(next)),
    {
    }

    /// A failed call poisons the handle for good: it leaves the slot empty,
    /// and the next call leaves it empty as well and reports success, not the
    /// failure again.
    pub proof fn failure_poisons_for_good(
        before: DataFrame,
        poisoned: DataFrame,
        first: Result<&DataFrame, PlanError>,
        after: DataFrame,
        second: Result<&DataFrame, PlanError>,
    )
        requires
            first is Err,
            Self::chained(before, poisoned, first),
            Self::chained(poisoned, after, second),
        ensures
            !poisoned.is_present(),
            !after.is_present(),
            second is Ok,
    {
    }

    /// A handle on a relation that the engine has made.
    pub fn new(plan: EngineFrame) -> (made: Self)
        ensures
            made@ == Some(plan),
    {
        Self { inner: Some(plan) }
    }

    /// Clone the current `DataFrame` and return a new `DataFrame` instance.
    pub fn clone(&self) -> (copy: Self)
        ensures
            copy@ == self@,
    {
        match &self.inner {
            Some(value) => Self { inner: Some(value.clone()) },
            None => Self { inner: None },
        }
    }

    /// Whether the slot holds a relation.
    pub fn has_value(&self) -> (present: bool)
        ensures
            present == self.is_present(),
    {
        self.inner.is_some()
    }

    /// A copy of the relation in the slot. Reading a poisoned handle is a
    /// mistake of the caller, which the precondition rules out.
    pub fn value(&self) -> (value: EngineFrame)
        requires
            self.is_present(),
        ensures
            value == self.plan(),
    {
        match &self.inner {
            Some(value) => value.clone(),
            None => unreached(),
        }
    }

    /// Ends a chained call with what the engine made of the relation: stores
    /// what it built, or empties the slot and reports its refusal.
    pub fn settle(&mut self, outcome: Result<EngineFrame, DataFusionError>) -> (reported: Result<
        &Self,
        PlanError,
    >)
        ensures
            Self::replaced(outcome, *final(self), reported),
    {
        match outcome {
            Ok(next) => {
                self.inner = Some(next);
                Ok(self)
            },
            Err(cause) => {
                self.inner = None;
                Err(PlanError::new(cause))
            },
        }
    }

    /// Filter the DataFrame by column. Returns a new DataFrame only containing the
    /// specified columns.
    pub fn select_columns(&mut self, columns: Vec<&str>) -> (reported: Result<&Self, PlanError>)
        ensures
            Self::stepped(
                *old(self),
                select_columns_outcome(old(self).plan(), texts(columns@)),
                *final(self),
                reported,
            ),
    {
        match self.inner.take() {
            Some(inner) => self.settle(inner.select_columns(columns.as_slice())),
            None => Ok(self),
        }
    }

    /// Create a projection based on arbitrary expressions.
    pub fn select(&mut self, expr_list: Vec<&Expr>) -> (reported: Result<&Self, PlanError>)
        requires
            old(self).is_present() ==> all_present(expr_list@),
        ensures
            Self::stepped(
                *old(self),
                select_outcome(old(self).plan(), engines(expr_list@)),
                *final(self),
                reported,
            ),
    {
        match self.inner.take() {
            Some(inner) => self.settle(inner.select(values(&expr_list))),
            None => Ok(self),
        }
    }

    /// Filter a DataFrame to only include rows that match the specified filter expression.
    pub fn filter(&mut self, expr: &Expr) -> (reported: Result<&Self, PlanError>)
        requires
            old(self).is_present() ==> expr.is_present(),
        ensures
            Self::stepped(
                *old(self),
                filter_outcome(old(self).plan(), expr.engine()),
                *final(self),
                reported,
            ),
    {
        match self.inner.take() {
            Some(inner) => self.settle(inner.filter(expr.value())),
            None => Ok(self),
        }
    }

    /// Perform an aggregate query with optional grouping expressions.
    pub fn aggregate(&mut self, group_expr: Vec<&Expr>, aggr_expr: Vec<&Expr>) -> (reported: Result<
        &Self,
        PlanError,
    >)
        requires
            old(self).is_present() ==> all_present(group_expr@) && all_present(aggr_expr@),
        ensures
            Self::stepped(
                *old(self),
                aggregate_outcome(old(self).plan(), engines(group_expr@), engines(aggr_expr@)),
                *final(self),
                reported,
            ),
    {
        match self.inner.take() {
            Some(inner) => {
                let groups = values(&group_expr);
                let aggregates = values(&aggr_expr);
                self.settle(inner.aggregate(groups, aggregates))
            },
            None => Ok(self),
        }
    }

    /// A row count as the engine takes it: the number itself where it is not
    /// negative and fits, and otherwise what a cast to `usize` makes of it.
    pub open spec fn row_count(count: i64) -> usize {
        count as usize
    }

    /// A count that is not negative and fits is handed on as it is.
    pub proof fn row_count_keeps_a_count(count: i64)
        requires
            0 <= count <= usize::MAX,
        ensures
            Self::row_count(count) == count,
    {
    }

    /// An optional row count as the engine takes it.
    pub open spec fn row_limit(fetch: Option<i64>) -> Option<usize> {
        match fetch {
            Some(count) => Some(Self::row_count(count)),
            None => None,
        }
    }

    /// Limit the number of rows returned from this DataFrame.
    ///
    /// `skip` - Number of rows to skip before fetch any row
    ///
    /// `fetch` - Maximum number of rows to fetch, after skipping `skip` rows.
    ///
    /// The engine never refuses a limit, so this call never poisons the handle.
    pub fn limit(&mut self, skip: i64, fetch: Option<i64>) -> (reported: Result<&Self, PlanError>)
        ensures
            Self::stepped(
                *old(self),
                limit_outcome(old(self).plan(), Self::row_count(skip), Self::row_limit(fetch)),
                *final(self),
                reported,
            ),
            reported is Ok,
            final(self).is_present() == old(self).is_present(),
    {
        match self.inner.take() {
            Some(inner) => {
                let fetch = match fetch {
                    Some(count) => Some(#[verifier::truncate] (count as usize)),
                    None => None,
                };
                self.settle(inner.limit(#[verifier::truncate] (skip as usize), fetch))
            },
            None => Ok(self),
        }
    }

    /// Calculate the union of two [`DataFrame`]s, preserving duplicate rows. The
    /// two [`DataFrame`]s must have exactly the same schema
    pub fn union(&mut self, dataframe: &DataFrame) -> (reported: Result<&Self, PlanError>)
        requires
            old(self).is_present() ==> dataframe.is_present(),
        ensures
            Self::stepped(
                *old(self),
                union_outcome(old(self).plan(), dataframe.plan()),
                *final(self),
                reported,
            ),
    {
        match self.inner.take() {
            Some(inner) => self.settle(inner.union(dataframe.value())),
            None => Ok(self),
        }
    }

    /// Calculate the distinct union of two [`DataFrame`]s. The
    /// two [`DataFrame`]s must have exactly the same schema
    pub fn union_distinct(&mut self, dataframe: &DataFrame) -> (reported: Result<&Self, PlanError>)
        requires
            old(self).is_present() ==> dataframe.is_present(),
        ensures
            Self::stepped(
                *old(self),
                union_distinct_outcome(old(self).plan(), dataframe.plan()),
                *final(self),
                reported,
            ),
    {
        match self.inner.take() {
            Some(inner) => self.settle(inner.union_distinct(dataframe.value())),
            None => Ok(self),
        }
    }

    /// Filter out duplicate rows
    ///
    /// The engine never refuses this, so the call never poisons the handle.
    pub fn distinct(&mut self) -> (reported: Result<&Self, PlanError>)
        ensures
            Self::stepped(*old(self), distinct_outcome(old(self).plan()), *final(self), reported),
            reported is Ok,
            final(self).is_present() == old(self).is_present(),
    {
        match self.inner.take() {
            Some(inner) => self.settle(inner.distinct()),
            None => Ok(self),
        }
    }

    /// Sort the DataFrame by the specified sorting expressions. Any expression can be turned into
    /// a sort expression by calling its `sort` method.
    ///
    /// The engine may build the sorted plan in more than one way, so nothing
    /// names the relation that a successful call leaves in the slot.
    pub fn sort(&mut self, expr: Vec<&Expr>) -> (reported: Result<&Self, PlanError>)
        requires
            old(self).is_present() ==> all_present(expr@),
        ensures
            Self::chained(*old(self), *final(self), reported),
    {
        match self.inner.take() {
            Some(inner) => self.settle(inner.sort(values(&expr))),
            None => Ok(self),
        }
    }

    /// The residual filter of a join as the engine takes it.
    pub open spec fn residual(filter: Option<&Expr>) -> Option<EngineExpr> {
        match filter {
            Some(predicate) => Some(predicate.engine()),
            None => None,
        }
    }

    /// Join this DataFrame with another DataFrame using the specified columns as join keys.
    ///
    /// Filter expression expected to contain non-equality predicates that can not be pushed
    /// down to any of join inputs.
    /// In case of outer join, filter applied to only matched rows.
    ///
    /// The two lists of key columns pair up, so they have to have one length:
    /// where they do not, the engine refuses and the handle is poisoned.
    pub fn join(
        &mut self,
        right: &DataFrame,
        join_type: JoinType,
        left_cols: Vec<&str>,
        right_cols: Vec<&str>,
        filter: Option<&Expr>,
    ) -> (reported: Result<&Self, PlanError>)
        requires
            old(self).is_present() ==> right.is_present(),
            old(self).is_present() ==> (filter matches Some(predicate) ==> predicate.is_present()),
        ensures
            Self::stepped(
                *old(self),
                join_outcome(
                    old(self).plan(),
                    right.plan(),
                    join_type.engine_join_type(),
                    texts(left_cols@),
                    texts(right_cols@),
                    Self::residual(filter),
                ),
                *final(self),
                reported,
            ),
            old(self).is_present() && left_cols@.len() != right_cols@.len() ==> {
                &&& !final(self).is_present()
                &&& reported matches Err(failure)
                &&& failure.text() == arity_mismatch_text()
            },
    {
        match self.inner.take() {
            Some(inner) => {
                let residual = match filter {
                    Some(predicate) => Some(predicate.value()),
                    None => None,
                };
                self.settle(
                    inner.join(
                        right.value(),
                        EngineJoinType::from(join_type),
                        left_cols.as_slice(),
                        right_cols.as_slice(),
                        residual,
                    ),
                )
            },
            None => Ok(self),
        }
    }
}

} // verus!

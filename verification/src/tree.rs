//! The mathematical model of an expression: the tree that the engine holds,
//! written out as far as this library builds it.

use datafusion::logical_expr::Operator as EngineOperator;
use vstd::prelude::*;

verus! {

/// A column reference as the engine keeps it: the parts of the table
/// reference in front of the column (none, or up to three), and the column's
/// name.
pub struct ColumnRef {
    pub relation: Seq<Seq<char>>,
    pub name: Seq<char>,
}

/// The built-in scalar functions that this library reaches.
pub enum ScalarKind {
    Concat,
    ConcatWithSeparator,
    Random,
}

/// The built-in aggregate functions that this library reaches.
pub enum AggregateKind {
    Min,
    Max,
    Sum,
    Avg,
    Count,
    ApproxDistinct,
    ApproxMedian,
    ApproxPercentileCont,
    ApproxPercentileContWithWeight,
}

/// The shape of an engine expression.
///
/// Each variant mirrors the engine's variant of the same name. `Other` stands
/// for every shape that this library never builds.
pub enum ExprTree {
    /// A UTF-8 string constant.
    Literal(Seq<char>),
    Column(ColumnRef),
    Alias(Box<ExprTree>, Seq<char>),
    Binary { left: Box<ExprTree>, op: EngineOperator, right: Box<ExprTree> },
    Like { negated: bool, expr: Box<ExprTree>, pattern: Box<ExprTree>, escape: Option<char> },
    ILike { negated: bool, expr: Box<ExprTree>, pattern: Box<ExprTree>, escape: Option<char> },
    SimilarTo { negated: bool, expr: Box<ExprTree>, pattern: Box<ExprTree>, escape: Option<char> },
    Not(Box<ExprTree>),
    IsNull(Box<ExprTree>),
    IsNotNull(Box<ExprTree>),
    IsTrue(Box<ExprTree>),
    IsNotTrue(Box<ExprTree>),
    IsFalse(Box<ExprTree>),
    IsNotFalse(Box<ExprTree>),
    IsUnknown(Box<ExprTree>),
    IsNotUnknown(Box<ExprTree>),
    Sort { expr: Box<ExprTree>, asc: bool, nulls_first: bool },
    InList { expr: Box<ExprTree>, list: Seq<ExprTree>, negated: bool },
    ScalarFunction { fun: ScalarKind, args: Seq<ExprTree> },
    AggregateFunction {
        agg: AggregateKind,
        args: Seq<ExprTree>,
        distinct: bool,
        filter: Option<Box<ExprTree>>,
    },
    GroupingSets(Seq<Seq<ExprTree>>),
    Cube(Seq<ExprTree>),
    Rollup(Seq<ExprTree>),
    Other,
}

impl ExprTree {
    /// `left <op> right`.
    pub open spec fn binary(left: ExprTree, op: EngineOperator, right: ExprTree) -> ExprTree {
        ExprTree::Binary { left: Box::new(left), op, right: Box::new(right) }
    }

    /// `self AS name`.
    pub open spec fn aliased(self, name: Seq<char>) -> ExprTree {
        ExprTree::Alias(Box::new(self), name)
    }

    /// The expression under a top-level alias; any other expression as it is.
    pub open spec fn unaliased(self) -> ExprTree {
        match self {
            ExprTree::Alias(inner, _) => *inner,
            other => other,
        }
    }

    /// Logical negation. A pattern match flips its own `negated` flag; every
    /// other expression is wrapped in `Not`.
    pub open spec fn negation(self) -> ExprTree {
        match self {
            ExprTree::Like { negated, expr, pattern, escape } => ExprTree::Like {
                negated: !negated,
                expr,
                pattern,
                escape,
            },
            ExprTree::ILike { negated, expr, pattern, escape } => ExprTree::ILike {
                negated: !negated,
                expr,
                pattern,
                escape,
            },
            ExprTree::SimilarTo { negated, expr, pattern, escape } => ExprTree::SimilarTo {
                negated: !negated,
                expr,
                pattern,
                escape,
            },
            other => ExprTree::Not(Box::new(other)),
        }
    }

    /// `self LIKE pattern`, or `self NOT LIKE pattern`, with no escape character.
    pub open spec fn like(self, pattern: ExprTree, negated: bool) -> ExprTree {
        ExprTree::Like { negated, expr: Box::new(self), pattern: Box::new(pattern), escape: None }
    }

    /// `self ILIKE pattern`, or `self NOT ILIKE pattern`, with no escape character.
    pub open spec fn ilike(self, pattern: ExprTree, negated: bool) -> ExprTree {
        ExprTree::ILike { negated, expr: Box::new(self), pattern: Box::new(pattern), escape: None }
    }

    /// `self IN (list)`, or `self NOT IN (list)`.
    pub open spec fn in_list(self, list: Seq<ExprTree>, negated: bool) -> ExprTree {
        ExprTree::InList { expr: Box::new(self), list, negated }
    }

    /// `self` as a sort key with its direction and its placement of nulls.
    pub open spec fn sort_key(self, asc: bool, nulls_first: bool) -> ExprTree {
        ExprTree::Sort { expr: Box::new(self), asc, nulls_first }
    }

    /// A call of a built-in scalar function.
    pub open spec fn scalar(fun: ScalarKind, args: Seq<ExprTree>) -> ExprTree {
        ExprTree::ScalarFunction { fun, args }
    }

    /// A call of a built-in aggregate function, without a filter.
    pub open spec fn aggregate(agg: AggregateKind, args: Seq<ExprTree>, distinct: bool) -> ExprTree {
        ExprTree::AggregateFunction { agg, args, distinct, filter: None }
    }
}

} // verus!

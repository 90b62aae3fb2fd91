//! Expression handles and the functions that combine them.

use crate::engine::expressions::{
    alias, column, column_ref, expr_tree, literal, tree_rows, trees,
};
use crate::tree::{AggregateKind, ExprTree, ScalarKind};
use datafusion::logical_expr::Operator as EngineOperator;
use datafusion::prelude::Expr as EngineExpr;
use vstd::prelude::*;

verus! {

/// Operators applied to expressions
#[derive(Clone, Copy, Debug, PartialEq, Eq, PartialOrd, Hash)]
pub enum Operator {
    /// Expressions are equal
    Eq,
    /// Expressions are not equal
    NotEq,
    /// Left side is smaller than right side
    Lt,
    /// Left side is smaller or equal to right side
    LtEq,
    /// Left side is greater than right side
    Gt,
    /// Left side is greater or equal to right side
    GtEq,
    /// Addition
    Plus,
    /// Subtraction
    Minus,
    /// Multiplication operator, like `*`
    Multiply,
    /// Division operator, like `/`
    Divide,
    /// Remainder operator, like `%`
    Modulo,
    /// Logical AND, like `&&`
    And,
    /// Logical OR, like `||`
    Or,
    /// IS DISTINCT FROM
    IsDistinctFrom,
    /// IS NOT DISTINCT FROM
    IsNotDistinctFrom,
    /// Case sensitive regex match
    RegexMatch,
    /// Case insensitive regex match
    RegexIMatch,
    /// Case sensitive regex not match
    RegexNotMatch,
    /// Case insensitive regex not match
    RegexNotIMatch,
    /// Bitwise and, like `&`
    BitwiseAnd,
    /// Bitwise or, like `|`
    BitwiseOr,
    /// Bitwise xor, like `#`
    BitwiseXor,
    /// Bitwise right, like `>>`
    BitwiseShiftRight,
    /// Bitwise left, like `<<`
    BitwiseShiftLeft,
    /// String concat
    StringConcat,
}

impl Operator {
    /// The engine's operator that this operator stands for: the one of the
    /// same name.
    pub open spec fn engine_operator(self) -> EngineOperator {
        match self {
            Operator::Eq => EngineOperator::Eq,
            Operator::NotEq => EngineOperator::NotEq,
            Operator::Lt => EngineOperator::Lt,
            Operator::LtEq => EngineOperator::LtEq,
            Operator::Gt => EngineOperator::Gt,
            Operator::GtEq => EngineOperator::GtEq,
            Operator::Plus => EngineOperator::Plus,
            Operator::Minus => EngineOperator::Minus,
            Operator::Multiply => EngineOperator::Multiply,
            Operator::Divide => EngineOperator::Divide,
            Operator::Modulo => EngineOperator::Modulo,
            Operator::And => EngineOperator::And,
            Operator::Or => EngineOperator::Or,
            Operator::IsDistinctFrom => EngineOperator::IsDistinctFrom,
            Operator::IsNotDistinctFrom => EngineOperator::IsNotDistinctFrom,
            Operator::RegexMatch => EngineOperator::RegexMatch,
            Operator::RegexIMatch => EngineOperator::RegexIMatch,
            Operator::RegexNotMatch => EngineOperator::RegexNotMatch,
            Operator::RegexNotIMatch => EngineOperator::RegexNotIMatch,
            Operator::BitwiseAnd => EngineOperator::BitwiseAnd,
            Operator::BitwiseOr => EngineOperator::BitwiseOr,
            Operator::BitwiseXor => EngineOperator::BitwiseXor,
            Operator::BitwiseShiftRight => EngineOperator::BitwiseShiftRight,
            Operator::BitwiseShiftLeft => EngineOperator::BitwiseShiftLeft,
            Operator::StringConcat => EngineOperator::StringConcat,
        }
    }

    /// Translating is one to one: two operators that the engine sees as the
    /// same operator are the same operator.
    pub proof fn translation_is_one_to_one(self, other: Operator)
        requires
            self.engine_operator() == other.engine_operator(),
        ensures
            self == other,
    {
    }

    /// Translating is onto: every operator of the engine has one here.
    pub proof fn translation_is_onto(engine: EngineOperator)
        ensures
            exists|op: Operator| op.engine_operator() == engine,
    {
        match engine {
            EngineOperator::Eq => assert(Operator::Eq.engine_operator() == engine),
            EngineOperator::NotEq => assert(Operator::NotEq.engine_operator() == engine),
            EngineOperator::Lt => assert(Operator::Lt.engine_operator() == engine),
            EngineOperator::LtEq => assert(Operator::LtEq.engine_operator() == engine),
            EngineOperator::Gt => assert(Operator::Gt.engine_operator() == engine),
            EngineOperator::GtEq => assert(Operator::GtEq.engine_operator() == engine),
            EngineOperator::Plus => assert(Operator::Plus.engine_operator() == engine),
            EngineOperator::Minus => assert(Operator::Minus.engine_operator() == engine),
            EngineOperator::Multiply => assert(Operator::Multiply.engine_operator() == engine),
            EngineOperator::Divide => assert(Operator::Divide.engine_operator() == engine),
            EngineOperator::Modulo => assert(Operator::Modulo.engine_operator() == engine),
            EngineOperator::And => assert(Operator::And.engine_operator() == engine),
            EngineOperator::Or => assert(Operator::Or.engine_operator() == engine),
            EngineOperator::IsDistinctFrom => assert(Operator::IsDistinctFrom.engine_operator() == engine),
            EngineOperator::IsNotDistinctFrom => assert(Operator::IsNotDistinctFrom.engine_operator() == engine),
            EngineOperator::RegexMatch => assert(Operator::RegexMatch.engine_operator() == engine),
            EngineOperator::RegexIMatch => assert(Operator::RegexIMatch.engine_operator() == engine),
            EngineOperator::RegexNotMatch => assert(Operator::RegexNotMatch.engine_operator() == engine),
            EngineOperator::RegexNotIMatch => assert(Operator::RegexNotIMatch.engine_operator() == engine),
            EngineOperator::BitwiseAnd => assert(Operator::BitwiseAnd.engine_operator() == engine),
            EngineOperator::BitwiseOr => assert(Operator::BitwiseOr.engine_operator() == engine),
            EngineOperator::BitwiseXor => assert(Operator::BitwiseXor.engine_operator() == engine),
            EngineOperator::BitwiseShiftRight => assert(Operator::BitwiseShiftRight.engine_operator() == engine),
            EngineOperator::BitwiseShiftLeft => assert(Operator::BitwiseShiftLeft.engine_operator() == engine),
            EngineOperator::StringConcat => assert(Operator::StringConcat.engine_operator() == engine),
        }
    }
}

impl From<Operator> for EngineOperator {
    fn from(op: Operator) -> (engine: Self) {
        match op {
            Operator::Eq => EngineOperator::Eq,
            Operator::NotEq => EngineOperator::NotEq,
            Operator::Lt => EngineOperator::Lt,
            Operator::LtEq => EngineOperator::LtEq,
            Operator::Gt => EngineOperator::Gt,
            Operator::GtEq => EngineOperator::GtEq,
            Operator::Plus => EngineOperator::Plus,
            Operator::Minus => EngineOperator::Minus,
            Operator::Multiply => EngineOperator::Multiply,
            Operator::Divide => EngineOperator::Divide,
            Operator::Modulo => EngineOperator::Modulo,
            Operator::And => EngineOperator::And,
            Operator::Or => EngineOperator::Or,
            Operator::IsDistinctFrom => EngineOperator::IsDistinctFrom,
            Operator::IsNotDistinctFrom => EngineOperator::IsNotDistinctFrom,
            Operator::RegexMatch => EngineOperator::RegexMatch,
            Operator::RegexIMatch => EngineOperator::RegexIMatch,
            Operator::RegexNotMatch => EngineOperator::RegexNotMatch,
            Operator::RegexNotIMatch => EngineOperator::RegexNotIMatch,
            Operator::BitwiseAnd => EngineOperator::BitwiseAnd,
            Operator::BitwiseOr => EngineOperator::BitwiseOr,
            Operator::BitwiseXor => EngineOperator::BitwiseXor,
            Operator::BitwiseShiftRight => EngineOperator::BitwiseShiftRight,
            Operator::BitwiseShiftLeft => EngineOperator::BitwiseShiftLeft,
            Operator::StringConcat => EngineOperator::StringConcat,
        }
    }
}

impl vstd::std_specs::convert::FromSpecImpl<Operator> for EngineOperator {
    open spec fn obeys_from_spec() -> bool {
        true
    }

    open spec fn from_spec(op: Operator) -> Self {
        op.engine_operator()
    }
}

/// A handle on one expression of the engine.
///
/// The handle has one slot, which holds the expression or is empty. Every
/// chained method takes the expression out of the slot, builds a new one
/// around it and puts that back; on an empty slot it does nothing. None of
/// these methods can fail, so a slot that was filled stays filled.
pub struct Expr {
    pub(crate) inner: Option<EngineExpr>,
}

/// The engine expressions in the slots of a list of handles.
pub open spec fn engines(list: Seq<&Expr>) -> Seq<EngineExpr> {
    list.map_values(|handle: &Expr| handle.engine())
}

/// The trees of a list of handles.
pub open spec fn views(list: Seq<&Expr>) -> Seq<ExprTree> {
    list.map_values(|handle: &Expr| handle.tree())
}

/// The trees of a list of lists of handles.
pub open spec fn view_rows(rows: Seq<Vec<&Expr>>) -> Seq<Seq<ExprTree>> {
    rows.map_values(|row: Vec<&Expr>| views(row@))
}

/// Whether every handle of a list holds an expression.
pub open spec fn all_present(list: Seq<&Expr>) -> bool {
    forall|i: int| 0 <= i < list.len() ==> (#[trigger] list[i]).is_present()
}

/// The expressions out of a list of handles, in order.
pub fn values(list: &Vec<&Expr>) -> (out: Vec<EngineExpr>)
    requires
        all_present(list@),
    ensures
        out@ == engines(list@),
        trees(out@) == views(list@),
{
    let mut out: Vec<EngineExpr> = Vec::new();
    let mut i: usize = 0;
    while i < list.len()
        invariant
            i <= list.len(),
            all_present(list@),
            out@.len() == i,
            forall|j: int| 0 <= j < i ==> #[trigger] out@[j] == list@[j].engine(),
        decreases list.len() - i,
    {
        out.push(list[i].value());
        i += 1;
    }
    assert(out@ =~= engines(list@));
    assert(trees(out@) =~= views(list@));
    out
}

/// The expressions out of a list of lists of handles, in order.
pub fn value_rows(rows: &Vec<Vec<&Expr>>) -> (out: Vec<Vec<EngineExpr>>)
    requires
        forall|i: int| 0 <= i < rows.len() ==> all_present(#[trigger] rows[i]@),
    ensures
        tree_rows(out@) == view_rows(rows@),
{
    let mut out: Vec<Vec<EngineExpr>> = Vec::new();
    let mut i: usize = 0;
    while i < rows.len()
        invariant
            i <= rows.len(),
            forall|j: int| 0 <= j < rows.len() ==> all_present(#[trigger] rows[j]@),
            out@.len() == i,
            forall|j: int| 0 <= j < i ==> trees(#[trigger] out@[j]@) == views(rows@[j]@),
        decreases rows.len() - i,
    {
        out.push(values(&rows[i]));
        i += 1;
    }
    assert(tree_rows(out@) =~= view_rows(rows@));
    out
}

impl Expr {
    /// What the slot holds.
    pub closed spec fn slot(&self) -> Option<EngineExpr> {
        self.inner
    }

    /// Whether the slot holds an expression.
    pub open spec fn is_present(&self) -> bool {
        self.slot() is Some
    }

    /// The expression in the slot.
    pub open spec fn engine(&self) -> EngineExpr
        recommends
            self.is_present(),
    {
        self.slot()->0
    }

    /// The tree of the expression in the slot.
    pub open spec fn tree(&self) -> ExprTree
        recommends
            self.is_present(),
    {
        expr_tree(self.engine())
    }

    /// The handle as a value: the tree in its slot, if there is one.
    pub open spec fn view(&self) -> Option<ExprTree> {
        match self.slot() {
            Some(value) => Some(expr_tree(value)),
            None => None,
        }
    }

    /// Create a literal expression
    pub fn lit(value: String) -> (made: Self)
        ensures
            made@ == Some(ExprTree::Literal(value@)),
    {
        Self { inner: Some(literal(value)) }
    }

    /// Return `self AS name` alias expression
    pub fn alias(&mut self, name: String) -> (chained: &Self)
        ensures
            final(self)@ == match old(self)@ {
                Some(tree) => Some(tree.aliased(name@)),
                None => None,
            },
            *chained == *final(self),
    {
        if let Some(inner) = self.inner.take() {
            self.inner = Some(alias(inner, name));
        }
        self
    }

    /// Return `self <= other`
    pub fn lt_eq(&mut self, other: &Expr) -> (chained: &Self)
        requires
            old(self).is_present() ==> other.is_present(),
        ensures
            final(self)@ == match old(self)@ {
                Some(tree) => Some(ExprTree::binary(tree, EngineOperator::LtEq, other.tree())),
                None => None,
            },
            *chained == *final(self),
    {
        if let Some(inner) = self.inner.take() {
            self.inner = Some(inner.lt_eq(other.value()));
        }
        self
    }

    /// Return `self && other`
    pub fn and(&mut self, other: &Expr) -> (chained: &Self)
        requires
            old(self).is_present() ==> other.is_present(),
        ensures
            final(self)@ == match old(self)@ {
                Some(tree) => Some(ExprTree::binary(tree, EngineOperator::And, other.tree())),
                None => None,
            },
            *chained == *final(self),
    {
        if let Some(inner) = self.inner.take() {
            self.inner = Some(inner.and(other.value()));
        }
        self
    }

    /// Return `self || other`
    pub fn or(&mut self, other: &Expr) -> (chained: &Self)
        requires
            old(self).is_present() ==> other.is_present(),
        ensures
            final(self)@ == match old(self)@ {
                Some(tree) => Some(ExprTree::binary(tree, EngineOperator::Or, other.tree())),
                None => None,
            },
            *chained == *final(self),
    {
        if let Some(inner) = self.inner.take() {
            self.inner = Some(inner.or(other.value()));
        }
        self
    }

    /// Return `!self`
    pub fn not(&mut self) -> (chained: &Self)
        ensures
            final(self)@ == match old(self)@ {
                Some(tree) => Some(tree.negation()),
                None => None,
            },
            *chained == *final(self),
    {
        if let Some(inner) = self.inner.take() {
            self.inner = Some(inner.not());
        }
        self
    }

    /// Calculate the modulus of two expressions.
    /// Return `self % other`
    pub fn modulus(&mut self, other: &Expr) -> (chained: &Self)
        requires
            old(self).is_present() ==> other.is_present(),
        ensures
            final(self)@ == match old(self)@ {
                Some(tree) => Some(ExprTree::binary(tree, EngineOperator::Modulo, other.tree())),
                None => None,
            },
            *chained == *final(self),
    {
        if let Some(inner) = self.inner.take() {
            self.inner = Some(inner.modulus(other.value()));
        }
        self
    }

    /// Return `self LIKE other`
    pub fn like(&mut self, other: &Expr) -> (chained: &Self)
        requires
            old(self).is_present() ==> other.is_present(),
        ensures
            final(self)@ == match old(self)@ {
                Some(tree) => Some(tree.like(other.tree(), false)),
                None => None,
            },
            *chained == *final(self),
    {
        if let Some(inner) = self.inner.take() {
            self.inner = Some(inner.like(other.value()));
        }
        self
    }

    /// Return `self NOT LIKE other`
    pub fn not_like(&mut self, other: &Expr) -> (chained: &Self)
        requires
            old(self).is_present() ==> other.is_present(),
        ensures
            final(self)@ == match old(self)@ {
                Some(tree) => Some(tree.like(other.tree(), true)),
                None => None,
            },
            *chained == *final(self),
    {
        if let Some(inner) = self.inner.take() {
            self.inner = Some(inner.not_like(other.value()));
        }
        self
    }

    /// Return `self ILIKE other`
    pub fn ilike(&mut self, other: &Expr) -> (chained: &Self)
        requires
            old(self).is_present() ==> other.is_present(),
        ensures
            final(self)@ == match old(self)@ {
                Some(tree) => Some(tree.ilike(other.tree(), false)),
                None => None,
            },
            *chained == *final(self),
    {
        if let Some(inner) = self.inner.take() {
            self.inner = Some(inner.ilike(other.value()));
        }
        self
    }

    /// Return `self NOT ILIKE other`
    pub fn not_ilike(&mut self, other: &Expr) -> (chained: &Self)
        requires
            old(self).is_present() ==> other.is_present(),
        ensures
            final(self)@ == match old(self)@ {
                Some(tree) => Some(tree.ilike(other.tree(), true)),
                None => None,
            },
            *chained == *final(self),
    {
        if let Some(inner) = self.inner.take() {
            self.inner = Some(inner.not_ilike(other.value()));
        }
        self
    }

    /// Remove an alias from an expression if one exists.
    pub fn unalias(&mut self) -> (chained: &Self)
        ensures
            final(self)@ == match old(self)@ {
                Some(tree) => Some(tree.unaliased()),
                None => None,
            },
            *chained == *final(self),
    {
        if let Some(inner) = self.inner.take() {
            self.inner = Some(inner.unalias());
        }
        self
    }

    /// Return `self IN <list>` if `negated` is false, otherwise
    /// return `self NOT IN <list>`.
    pub fn in_list(&mut self, list: Vec<&Expr>, negated: bool) -> (chained: &Self)
        requires
            old(self).is_present() ==> all_present(list@),
        ensures
            final(self)@ == match old(self)@ {
                Some(tree) => Some(tree.in_list(views(list@), negated)),
                None => None,
            },
            *chained == *final(self),
    {
        if let Some(inner) = self.inner.take() {
            self.inner = Some(inner.in_list(values(&list), negated));
        }
        self
    }

    /// Return `IsNull(Box(self))`
    pub fn is_null(&mut self) -> (chained: &Self)
        ensures
            final(self)@ == match old(self)@ {
                Some(tree) => Some(ExprTree::IsNull(Box::new(tree))),
                None => None,
            },
            *chained == *final(self),
    {
        if let Some(inner) = self.inner.take() {
            self.inner = Some(inner.is_null());
        }
        self
    }

    /// Return `IsNotNull(Box(self))`
    pub fn is_not_null(&mut self) -> (chained: &Self)
        ensures
            final(self)@ == match old(self)@ {
                Some(tree) => Some(ExprTree::IsNotNull(Box::new(tree))),
                None => None,
            },
            *chained == *final(self),
    {
        if let Some(inner) = self.inner.take() {
            self.inner = Some(inner.is_not_null());
        }
        self
    }

    /// Create a sort expression from an existing expression: `asc` gives the
    /// direction, `nulls_first` puts nulls before all other values.
    pub fn sort(&mut self, asc: bool, nulls_first: bool) -> (chained: &Self)
        ensures
            final(self)@ == match old(self)@ {
                Some(tree) => Some(tree.sort_key(asc, nulls_first)),
                None => None,
            },
            *chained == *final(self),
    {
        if let Some(inner) = self.inner.take() {
            self.inner = Some(inner.sort(asc, nulls_first));
        }
        self
    }

    /// Return `IsTrue(Box(self))`
    pub fn is_true(&mut self) -> (chained: &Self)
        ensures
            final(self)@ == match old(self)@ {
                Some(tree) => Some(ExprTree::IsTrue(Box::new(tree))),
                None => None,
            },
            *chained == *final(self),
    {
        if let Some(inner) = self.inner.take() {
            self.inner = Some(inner.is_true());
        }
        self
    }

    /// Return `IsNotTrue(Box(self))`
    pub fn is_not_true(&mut self) -> (chained: &Self)
        ensures
            final(self)@ == match old(self)@ {
                Some(tree) => Some(ExprTree::IsNotTrue(Box::new(tree))),
                None => None,
            },
            *chained == *final(self),
    {
        if let Some(inner) = self.inner.take() {
            self.inner = Some(inner.is_not_true());
        }
        self
    }

    /// Return `IsFalse(Box(self))`
    pub fn is_false(&mut self) -> (chained: &Self)
        ensures
            final(self)@ == match old(self)@ {
                Some(tree) => Some(ExprTree::IsFalse(Box::new(tree))),
                None => None,
            },
            *chained == *final(self),
    {
        if let Some(inner) = self.inner.take() {
            self.inner = Some(inner.is_false());
        }
        self
    }

    /// Return `IsNotFalse(Box(self))`
    pub fn is_not_false(&mut self) -> (chained: &Self)
        ensures
            final(self)@ == match old(self)@ {
                Some(tree) => Some(ExprTree::IsNotFalse(Box::new(tree))),
                None => None,
            },
            *chained == *final(self),
    {
        if let Some(inner) = self.inner.take() {
            self.inner = Some(inner.is_not_false());
        }
        self
    }

    /// Return `IsUnknown(Box(self))`
    pub fn is_unknown(&mut self) -> (chained: &Self)
        ensures
            final(self)@ == match old(self)@ {
                Some(tree) => Some(ExprTree::IsUnknown(Box::new(tree))),
                None => None,
            },
            *chained == *final(self),
    {
        if let Some(inner) = self.inner.take() {
            self.inner = Some(inner.is_unknown());
        }
        self
    }

    /// Return `IsNotUnknown(Box(self))`
    pub fn is_not_unknown(&mut self) -> (chained: &Self)
        ensures
            final(self)@ == match old(self)@ {
                Some(tree) => Some(ExprTree::IsNotUnknown(Box::new(tree))),
                None => None,
            },
            *chained == *final(self),
    {
        if let Some(inner) = self.inner.take() {
            self.inner = Some(inner.is_not_unknown());
        }
        self
    }

    /// Clone the `Expr` and return the new `Expr` instance.
    pub fn clone(&self) -> (copy: Self)
        ensures
            copy.slot() == self.slot(),
    {
        match &self.inner {
            Some(value) => Self { inner: Some(value.clone()) },
            None => Self { inner: None },
        }
    }

    /// Whether the slot holds an expression.
    pub fn has_value(&self) -> (present: bool)
        ensures
            present == self.is_present(),
    {
        self.inner.is_some()
    }

    /// A copy of the expression in the slot. Reading an empty slot is a
    /// mistake of the caller, which the precondition rules out.
    pub fn value(&self) -> (value: EngineExpr)
        requires
            self.is_present(),
        ensures
            value == self.engine(),
    {
        match &self.inner {
            Some(value) => value.clone(),
            None => unreached(),
        }
    }

    /// Undoing an alias gives back the expression that was aliased: if
    /// `aliased` is what `alias(name)` made of `start`, and `restored` what
    /// `unalias()` made of that, then `restored` has the tree of `start`.
    pub proof fn unalias_undoes_alias(start: Expr, name: Seq<char>, aliased: Expr, restored: Expr)
        requires
            aliased@ == match start@ {
                Some(tree) => Some(tree.aliased(name)),
                None => None,
            },
            restored@ == match aliased@ {
                Some(tree) => Some(tree.unaliased()),
                None => None,
            },
        ensures
            restored@ == start@,
    {
    }
}

/// Create a column expression based on a qualified or unqualified column name
pub fn col(name: String) -> (made: Expr)
    ensures
        made@ == Some(ExprTree::Column(column_ref(name@))),
{
    Expr { inner: Some(column(name)) }
}

/// Return a new expression `left <op> right`
pub fn binary_expr(left: &Expr, op: Operator, right: &Expr) -> (made: Expr)
    requires
        left.is_present(),
        right.is_present(),
    ensures
        made@ == Some(ExprTree::binary(left.tree(), op.engine_operator(), right.tree())),
{
    Expr {
        inner: Some(
            datafusion::prelude::binary_expr(left.value(), EngineOperator::from(op), right.value()),
        ),
    }
}

/// Return a new expression with a logical AND
pub fn and(left: &Expr, right: &Expr) -> (made: Expr)
    requires
        left.is_present(),
        right.is_present(),
    ensures
        made@ == Some(ExprTree::binary(left.tree(), EngineOperator::And, right.tree())),
{
    Expr { inner: Some(datafusion::prelude::and(left.value(), right.value())) }
}

/// Return a new expression with a logical OR
pub fn or(left: &Expr, right: &Expr) -> (made: Expr)
    requires
        left.is_present(),
        right.is_present(),
    ensures
        made@ == Some(ExprTree::binary(left.tree(), EngineOperator::Or, right.tree())),
{
    Expr { inner: Some(datafusion::prelude::or(left.value(), right.value())) }
}

/// Create an expression to represent the min() aggregate function
pub fn min(expr: &Expr) -> (made: Expr)
    requires
        expr.is_present(),
    ensures
        made@ == Some(ExprTree::aggregate(AggregateKind::Min, seq![expr.tree()], false)),
{
    Expr { inner: Some(datafusion::prelude::min(expr.value())) }
}

/// Create an expression to represent the max() aggregate function
pub fn max(expr: &Expr) -> (made: Expr)
    requires
        expr.is_present(),
    ensures
        made@ == Some(ExprTree::aggregate(AggregateKind::Max, seq![expr.tree()], false)),
{
    Expr { inner: Some(datafusion::prelude::max(expr.value())) }
}

/// Create an expression to represent the sum() aggregate function
pub fn sum(expr: &Expr) -> (made: Expr)
    requires
        expr.is_present(),
    ensures
        made@ == Some(ExprTree::aggregate(AggregateKind::Sum, seq![expr.tree()], false)),
{
    Expr { inner: Some(datafusion::prelude::sum(expr.value())) }
}

/// Create an expression to represent the avg() aggregate function
pub fn avg(expr: &Expr) -> (made: Expr)
    requires
        expr.is_present(),
    ensures
        made@ == Some(ExprTree::aggregate(AggregateKind::Avg, seq![expr.tree()], false)),
{
    Expr { inner: Some(datafusion::prelude::avg(expr.value())) }
}

/// Create an expression to represent the count() aggregate function
pub fn count(expr: &Expr) -> (made: Expr)
    requires
        expr.is_present(),
    ensures
        made@ == Some(ExprTree::aggregate(AggregateKind::Count, seq![expr.tree()], false)),
{
    Expr { inner: Some(datafusion::prelude::count(expr.value())) }
}

/// Create an expression to represent the count(distinct) aggregate function
pub fn count_distinct(expr: &Expr) -> (made: Expr)
    requires
        expr.is_present(),
    ensures
        made@ == Some(ExprTree::aggregate(AggregateKind::Count, seq![expr.tree()], true)),
{
    Expr { inner: Some(datafusion::prelude::count_distinct(expr.value())) }
}

/// Create an in_list expression
pub fn in_list(expr: &Expr, list: Vec<&Expr>, negated: bool) -> (made: Expr)
    requires
        expr.is_present(),
        all_present(list@),
    ensures
        made@ == Some(expr.tree().in_list(views(list@), negated)),
{
    Expr { inner: Some(datafusion::prelude::in_list(expr.value(), values(&list), negated)) }
}

/// Concatenates the text representations of all the arguments. NULL arguments are ignored.
pub fn concat(args: Vec<&Expr>) -> (made: Expr)
    requires
        all_present(args@),
    ensures
        made@ == Some(ExprTree::scalar(ScalarKind::Concat, views(args@))),
{
    let operands = values(&args);
    Expr { inner: Some(datafusion::prelude::concat(operands.as_slice())) }
}

/// Concatenates all but the first argument, with separators.
/// The first argument is used as the separator.
/// NULL arguments in `values` are ignored.
pub fn concat_ws(sep: &Expr, values: Vec<&Expr>) -> (made: Expr)
    requires
        sep.is_present(),
        all_present(values@),
    ensures
        made@ == Some(
            ExprTree::scalar(ScalarKind::ConcatWithSeparator, seq![sep.tree()] + views(values@)),
        ),
{
    Expr { inner: Some(datafusion::prelude::concat_ws(sep.value(), self::values(&values))) }
}

/// Returns a random value in the range 0.0 <= x < 1.0
pub fn random() -> (made: Expr)
    ensures
        made@ == Some(ExprTree::scalar(ScalarKind::Random, Seq::empty())),
{
    Expr { inner: Some(datafusion::prelude::random()) }
}

/// Returns the approximate number of distinct input values.
/// This function provides an approximation of count(DISTINCT x).
/// Zero is returned if all input values are null.
pub fn approx_distinct(expr: &Expr) -> (made: Expr)
    requires
        expr.is_present(),
    ensures
        made@ == Some(ExprTree::aggregate(AggregateKind::ApproxDistinct, seq![expr.tree()], false)),
{
    Expr { inner: Some(datafusion::prelude::approx_distinct(expr.value())) }
}

/// Calculate an approximation of the median for `expr`.
pub fn approx_median(expr: &Expr) -> (made: Expr)
    requires
        expr.is_present(),
    ensures
        made@ == Some(ExprTree::aggregate(AggregateKind::ApproxMedian, seq![expr.tree()], false)),
{
    Expr { inner: Some(datafusion::prelude::approx_median(expr.value())) }
}

/// Calculate an approximation of the specified `percentile` for `expr`.
pub fn approx_percentile_cont(expr: &Expr, percentile: &Expr) -> (made: Expr)
    requires
        expr.is_present(),
        percentile.is_present(),
    ensures
        made@ == Some(
            ExprTree::aggregate(
                AggregateKind::ApproxPercentileCont,
                seq![expr.tree(), percentile.tree()],
                false,
            ),
        ),
{
    Expr {
        inner: Some(datafusion::prelude::approx_percentile_cont(expr.value(), percentile.value())),
    }
}

/// Calculate an approximation of the specified `percentile` for `expr` and `weight_expr`.
pub fn approx_percentile_cont_with_weight(expr: &Expr, weight_expr: &Expr, percentile: &Expr) -> (made:
    Expr)
    requires
        expr.is_present(),
        weight_expr.is_present(),
        percentile.is_present(),
    ensures
        made@ == Some(
            ExprTree::aggregate(
                AggregateKind::ApproxPercentileContWithWeight,
                seq![expr.tree(), weight_expr.tree(), percentile.tree()],
                false,
            ),
        ),
{
    Expr {
        inner: Some(
            datafusion::prelude::approx_percentile_cont_with_weight(
                expr.value(),
                weight_expr.value(),
                percentile.value(),
            ),
        ),
    }
}

/// Create a grouping set
pub fn grouping_set(exprs: Vec<Vec<&Expr>>) -> (made: Expr)
    requires
        forall|i: int| 0 <= i < exprs.len() ==> all_present(#[trigger] exprs[i]@),
    ensures
        made@ == Some(ExprTree::GroupingSets(view_rows(exprs@))),
{
    Expr { inner: Some(datafusion::prelude::grouping_set(value_rows(&exprs))) }
}

/// Create a grouping set for all combination of `exprs`
pub fn cube(exprs: Vec<&Expr>) -> (made: Expr)
    requires
        all_present(exprs@),
    ensures
        made@ == Some(ExprTree::Cube(views(exprs@))),
{
    Expr { inner: Some(datafusion::prelude::cube(values(&exprs))) }
}

/// Create a grouping set for rollup
pub fn rollup(exprs: Vec<&Expr>) -> (made: Expr)
    requires
        all_present(exprs@),
    ensures
        made@ == Some(ExprTree::Rollup(views(exprs@))),
{
    Expr { inner: Some(datafusion::prelude::rollup(values(&exprs))) }
}

/// Create is null expression
pub fn is_null(expr: &Expr) -> (made: Expr)
    requires
        expr.is_present(),
    ensures
        made@ == Some(ExprTree::IsNull(Box::new(expr.tree()))),
{
    Expr { inner: Some(datafusion::prelude::is_null(expr.value())) }
}

/// Create is true expression
pub fn is_true(expr: &Expr) -> (made: Expr)
    requires
        expr.is_present(),
    ensures
        made@ == Some(ExprTree::IsTrue(Box::new(expr.tree()))),
{
    Expr { inner: Some(datafusion::prelude::is_true(expr.value())) }
}

/// Create is not true expression
pub fn is_not_true(expr: &Expr) -> (made: Expr)
    requires
        expr.is_present(),
    ensures
        made@ == Some(ExprTree::IsNotTrue(Box::new(expr.tree()))),
{
    Expr { inner: Some(datafusion::prelude::is_not_true(expr.value())) }
}

/// Create is false expression
pub fn is_false(expr: &Expr) -> (made: Expr)
    requires
        expr.is_present(),
    ensures
        made@ == Some(ExprTree::IsFalse(Box::new(expr.tree()))),
{
    Expr { inner: Some(datafusion::prelude::is_false(expr.value())) }
}

/// Create is not false expression
pub fn is_not_false(expr: &Expr) -> (made: Expr)
    requires
        expr.is_present(),
    ensures
        made@ == Some(ExprTree::IsNotFalse(Box::new(expr.tree()))),
{
    Expr { inner: Some(datafusion::prelude::is_not_false(expr.value())) }
}

/// Create is unknown expression
pub fn is_unknown(expr: &Expr) -> (made: Expr)
    requires
        expr.is_present(),
    ensures
        made@ == Some(ExprTree::IsUnknown(Box::new(expr.tree()))),
{
    Expr { inner: Some(datafusion::prelude::is_unknown(expr.value())) }
}

/// Create is not unknown expression
pub fn is_not_unknown(expr: &Expr) -> (made: Expr)
    requires
        expr.is_present(),
    ensures
        made@ == Some(ExprTree::IsNotUnknown(Box::new(expr.tree()))),
{
    Expr { inner: Some(datafusion::prelude::is_not_unknown(expr.value())) }
}

} // verus!

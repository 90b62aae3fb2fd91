//! A lazy, chainable builder for queries over a columnar engine.
//!
//! [`expr::Expr`] builds scalar and boolean expressions, [`data_frame::DataFrame`]
//! builds relations out of them. Both are handles with one slot: every
//! chained call takes the value out of the slot, lets the engine transform it
//! and puts the outcome back. A call that the engine refuses leaves the slot
//! empty for good.

pub mod data_frame;
pub mod engine;
pub mod expr;
pub mod tree;

//! The query engine as the verifier sees it.
//!
//! Everything in this module and below it is believed, not proved: the
//! engine's types are declared here, and the two modules below give each
//! engine function that the library calls its contract. The rest of the crate
//! is verified against these contracts.

use datafusion::error::DataFusionError;
use datafusion::logical_expr::Operator as EngineOperator;
use datafusion::prelude::DataFrame as EngineFrame;
use datafusion::prelude::Expr as EngineExpr;
use datafusion::prelude::JoinType as EngineJoinType;
use vstd::prelude::*;

pub mod expressions;
pub mod relations;

verus! {

/// `datafusion::prelude::Expr`: one node of an expression tree. Opaque; its
/// shape is spoken of through `expressions::expr_tree`.
#[verifier::external_type_specification]
#[verifier::external_body]
pub struct ExExpression(EngineExpr);

/// `datafusion::prelude::DataFrame`: a logical plan together with the session
/// it belongs to. Opaque.
#[verifier::external_type_specification]
#[verifier::external_body]
pub struct ExFrame(EngineFrame);

/// `datafusion::error::DataFusionError`: whatever the engine reports when it
/// refuses a plan. Opaque; its text is `relations::error_text`.
#[verifier::external_type_specification]
#[verifier::external_body]
pub struct ExFailure(DataFusionError);

/// `datafusion::logical_expr::Operator`: a plain enumeration, declared with
/// its variants so that the translation into it is verified, not believed.
#[verifier::external_type_specification]
pub struct ExBinaryOperator(EngineOperator);

/// `datafusion::prelude::JoinType`: a plain enumeration, declared with its
/// variants like the operator.
#[verifier::external_type_specification]
pub struct ExJoinKind(EngineJoinType);

} // verus!

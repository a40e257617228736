//! Shared data model and stage logic of a staged compiler pipeline: the
//! unit's configuration, source spans, the syntax tree with its message
//! codec, the check stage (scope, purity, static kinds), and a call-by-value
//! evaluator with a step budget and an optional constant-folding pass.

pub mod ast;
pub mod check;
pub mod codec;
pub mod config;
pub mod error;
pub mod eval;
pub mod span;
pub mod stage;

pub use ast::{Expr, Loc};
pub use check::{check_unit, TypeError};
pub use codec::{deserialize_ast, serialize_ast, MessageFormatError};
pub use config::{OptimizationLevel, PipelineConfig, PurityLevel, TypeSystem};
pub use error::PipelineError;
pub use eval::{evaluate, EvalError};
pub use span::SourceSpan;
pub use stage::{run_unit, UnitError};

use vstd::prelude::*;

verus! {

/// The stage boundary: each stage reads one message and writes one message.
/// Reading and writing the byte stream is left to the program that runs a
/// stage; the message contents are built and read by `serialize_ast` and
/// `deserialize_ast`.
pub struct Pipeline;

} // verus!

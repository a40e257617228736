use vstd::prelude::*;
use crate::ast::Expr;
use crate::check::{check_result, check_unit, TypeError};
use crate::config::{effective_level, OptimizationLevel, PipelineConfig};
use crate::eval::{eval, evaluate, fold, EvalError};

verus! {

/// Why a unit produced no value: it was rejected before evaluation, or its
/// evaluation failed.
#[derive(Debug, Clone, Copy, PartialEq, Eq, Structural)]
pub enum UnitError {
    Check(TypeError),
    Eval(EvalError),
}

/// What running a unit gives: the check's error if it is rejected, else the
/// evaluation at the unit's effective optimization level.
pub open spec fn run_result(e: Expr, config: PipelineConfig, fuel: nat) -> Result<Expr, UnitError> {
    match check_result(e, config.type_system, config.purity_level) {
        Err(x) => Err(UnitError::Check(x)),
        Ok(_) => {
            let r = if effective_level(config.optimization_level, config.purity_level)
                == OptimizationLevel::Debug {
                eval(e, fuel)
            } else {
                eval(fold(e), fuel)
            };
            match r {
                Ok(v) => Ok(v),
                Err(x) => Err(UnitError::Eval(x)),
            }
        },
    }
}

/// Checks a unit under its configuration and, if it is accepted, evaluates
/// it with at most `fuel` nested steps.
pub fn run_unit(e: &Expr, config: &PipelineConfig, fuel: u64) -> (r: Result<Expr, UnitError>)
    ensures
        r == run_result(*e, *config, fuel as nat),
{
    match check_unit(e, config) {
        Err(x) => Err(UnitError::Check(x)),
        Ok(()) => match evaluate(e, config.effective_optimization(), fuel) {
            Ok(v) => Ok(v),
            Err(x) => Err(UnitError::Eval(x)),
        },
    }
}

/// Checking is a function of the tree and the configuration: two checks of
/// the same unit under the same configuration give the same result, and the
/// configuration enters only through its type discipline and purity level.
pub proof fn lemma_check_deterministic(e1: Expr, e2: Expr, c1: PipelineConfig, c2: PipelineConfig)
    requires
        e1 == e2,
        c1.type_system == c2.type_system,
        c1.purity_level == c2.purity_level,
    ensures
        check_result(e1, c1.type_system, c1.purity_level) == check_result(e2, c2.type_system, c2.purity_level),
{
}

} // verus!

use vstd::prelude::*;

verus! {

/// The type discipline under which a compilation unit is checked.
#[derive(Debug, Clone, Copy, PartialEq, Eq, Structural)]
pub enum TypeSystem {
    /// Every node has the universal "any" type.
    Dynamic,
    /// Hindley-Milner inference.
    Inferred,
    /// A mix of statically and dynamically checked regions.
    Gradual,
    /// Types may contain terms.
    Dependent,
}

/// Which effectful primitives a unit may use.
#[derive(Debug, Clone, Copy, PartialEq, Eq, Structural)]
pub enum PurityLevel {
    /// No effects at all.
    Pure,
    /// Only the primitives on the sandbox whitelist.
    Sandbox,
    /// Any effect.
    Unrestricted,
}

/// How far the evaluator may rewrite a term.
#[derive(Debug, Clone, Copy, PartialEq, Eq, Structural)]
pub enum OptimizationLevel {
    /// No rewriting; keeps the mapping back to typed nodes.
    Debug,
    /// Standard, effect-safe simplifications.
    Release,
    /// Also reorders and inlines, which is sound only without effects.
    Aggressive,
}

/// The policy record attached to one compilation unit. It is built once and
/// only read afterwards.
#[derive(Debug, Clone)]
pub struct PipelineConfig {
    /// Free-form language tag, carried for diagnostics only.
    pub source_language: String,
    pub type_system: TypeSystem,
    pub purity_level: PurityLevel,
    pub optimization_level: OptimizationLevel,
}

/// The optimization level that may actually be applied: aggressive
/// rewriting relies on the absence of effects, so an unrestricted unit falls
/// back to the release level.
pub open spec fn effective_level(opt: OptimizationLevel, purity: PurityLevel) -> OptimizationLevel {
    if opt == OptimizationLevel::Aggressive && purity == PurityLevel::Unrestricted {
        OptimizationLevel::Release
    } else {
        opt
    }
}

impl PipelineConfig {
    /// The optimization level the evaluator applies to this unit.
    pub fn effective_optimization(&self) -> (r: OptimizationLevel)
        ensures
            r == effective_level(self.optimization_level, self.purity_level),
    {
        match (self.optimization_level, self.purity_level) {
            (OptimizationLevel::Aggressive, PurityLevel::Unrestricted) => OptimizationLevel::Release,
            (opt, _) => opt,
        }
    }
}

impl Default for PipelineConfig {
    fn default() -> (r: Self)
        ensures
            r.source_language@ == "unknown"@,
            r.type_system == TypeSystem::Inferred,
            r.purity_level == PurityLevel::Sandbox,
            r.optimization_level == OptimizationLevel::Release,
    {
        PipelineConfig {
            source_language: "unknown".to_owned(),
            type_system: TypeSystem::Inferred,
            purity_level: PurityLevel::Sandbox,
            optimization_level: OptimizationLevel::Release,
        }
    }
}

} // verus!

use vstd::prelude::*;

verus! {

/// Position of a node in its unit's source file: 1-based lines and columns.
#[derive(Debug, Clone, Copy, PartialEq, Eq, Structural)]
pub struct Loc {
    pub start_line: u32,
    pub start_column: u32,
    pub end_line: u32,
    pub end_column: u32,
}

/// An untyped syntax tree. Variables are de Bruijn indices: `Var { index: 0 }`
/// refers to the nearest enclosing binder (`Lam` or the body of a `Let`).
#[derive(Debug, PartialEq, Eq)]
pub enum Expr {
    Int { value: u64, loc: Loc },
    Bool { value: bool, loc: Loc },
    Var { index: u64, loc: Loc },
    Lam { body: Box<Expr>, loc: Loc },
    App { func: Box<Expr>, arg: Box<Expr>, loc: Loc },
    Let { bound: Box<Expr>, body: Box<Expr>, loc: Loc },
    Add { left: Box<Expr>, right: Box<Expr>, loc: Loc },
    If { cond: Box<Expr>, then_branch: Box<Expr>, else_branch: Box<Expr>, loc: Loc },
    /// A call of the effectful primitive numbered `prim`.
    Effect { prim: u64, arg: Box<Expr>, loc: Loc },
    /// `(expr : ty)`: a declared kind, checked when the value is produced.
    Annot { expr: Box<Expr>, ty: Ty, loc: Loc },
}

/// The kind of value an annotation declares.
#[derive(Debug, Clone, Copy, PartialEq, Eq, Structural)]
pub enum Ty {
    Int,
    Bool,
    Fun,
}

/// One more than the largest de Bruijn index: a binder count at or past it
/// binds every index.
pub const INDEX_CAP: u128 = 0x1_0000_0000_0000_0000;

/// The binder count one binder further in, saturating at `INDEX_CAP`.
pub fn under_binder(k: u128) -> (r: u128)
    requires
        k <= INDEX_CAP,
    ensures
        r <= INDEX_CAP,
        k < INDEX_CAP ==> r == k + 1,
        k == INDEX_CAP ==> r == k,
{
    if k < INDEX_CAP {
        k + 1
    } else {
        k
    }
}

/// Primitive that writes a line to the unit's log.
pub const PRIM_LOG: u64 = 0;

/// Primitive that reads a configuration value.
pub const PRIM_READ_CONFIG: u64 = 1;

/// Primitive that writes a file.
pub const PRIM_WRITE_FILE: u64 = 2;

/// Primitive that draws a random number.
pub const PRIM_RANDOM: u64 = 3;

/// The primitives a sandboxed unit may call.
pub open spec fn sandbox_permits(prim: u64) -> bool {
    prim == PRIM_LOG || prim == PRIM_READ_CONFIG
}

impl Expr {
    pub open spec fn loc_spec(&self) -> Loc {
        match *self {
            Expr::Int { loc, .. } => loc,
            Expr::Bool { loc, .. } => loc,
            Expr::Var { loc, .. } => loc,
            Expr::Lam { loc, .. } => loc,
            Expr::App { loc, .. } => loc,
            Expr::Let { loc, .. } => loc,
            Expr::Add { loc, .. } => loc,
            Expr::If { loc, .. } => loc,
            Expr::Effect { loc, .. } => loc,
            Expr::Annot { loc, .. } => loc,
        }
    }

    /// The source position of this node.
    pub fn loc(&self) -> (r: Loc)
        ensures
            r == self.loc_spec(),
    {
        match self {
            Expr::Int { loc, .. } => *loc,
            Expr::Bool { loc, .. } => *loc,
            Expr::Var { loc, .. } => *loc,
            Expr::Lam { loc, .. } => *loc,
            Expr::App { loc, .. } => *loc,
            Expr::Let { loc, .. } => *loc,
            Expr::Add { loc, .. } => *loc,
            Expr::If { loc, .. } => *loc,
            Expr::Effect { loc, .. } => *loc,
            Expr::Annot { loc, .. } => *loc,
        }
    }
}

/// Whether the tree calls any effectful primitive.
pub open spec fn has_effect(e: Expr) -> bool
    decreases e,
{
    match e {
        Expr::Int { .. } | Expr::Bool { .. } | Expr::Var { .. } => false,
        Expr::Lam { body, .. } => has_effect(*body),
        Expr::App { func, arg, .. } => has_effect(*func) || has_effect(*arg),
        Expr::Let { bound, body, .. } => has_effect(*bound) || has_effect(*body),
        Expr::Add { left, right, .. } => has_effect(*left) || has_effect(*right),
        Expr::If { cond, then_branch, else_branch, .. } => has_effect(*cond) || has_effect(
            *then_branch,
        ) || has_effect(*else_branch),
        Expr::Effect { .. } => true,
        Expr::Annot { expr, .. } => has_effect(*expr),
    }
}

/// Whether every effectful primitive in the tree is permitted at `purity`.
pub open spec fn effects_permitted(e: Expr, purity: crate::config::PurityLevel) -> bool
    decreases e,
{
    match e {
        Expr::Int { .. } | Expr::Bool { .. } | Expr::Var { .. } => true,
        Expr::Lam { body, .. } => effects_permitted(*body, purity),
        Expr::App { func, arg, .. } => effects_permitted(*func, purity) && effects_permitted(
            *arg,
            purity,
        ),
        Expr::Let { bound, body, .. } => effects_permitted(*bound, purity) && effects_permitted(
            *body,
            purity,
        ),
        Expr::Add { left, right, .. } => effects_permitted(*left, purity) && effects_permitted(
            *right,
            purity,
        ),
        Expr::If { cond, then_branch, else_branch, .. } => effects_permitted(*cond, purity)
            && effects_permitted(*then_branch, purity) && effects_permitted(*else_branch, purity),
        Expr::Effect { prim, arg, .. } => match purity {
            crate::config::PurityLevel::Pure => false,
            crate::config::PurityLevel::Sandbox => sandbox_permits(prim) && effects_permitted(
                *arg,
                purity,
            ),
            crate::config::PurityLevel::Unrestricted => effects_permitted(*arg, purity),
        },
        Expr::Annot { expr, .. } => effects_permitted(*expr, purity),
    }
}

/// Whether every variable of the tree, under `depth` enclosing binders,
/// refers to a binder.
pub open spec fn well_scoped(e: Expr, depth: int) -> bool
    decreases e,
{
    match e {
        Expr::Int { .. } | Expr::Bool { .. } => true,
        Expr::Var { index, .. } => index < depth,
        Expr::Lam { body, .. } => well_scoped(*body, depth + 1),
        Expr::App { func, arg, .. } => well_scoped(*func, depth) && well_scoped(*arg, depth),
        Expr::Let { bound, body, .. } => well_scoped(*bound, depth) && well_scoped(*body, depth + 1),
        Expr::Add { left, right, .. } => well_scoped(*left, depth) && well_scoped(*right, depth),
        Expr::If { cond, then_branch, else_branch, .. } => well_scoped(*cond, depth) && well_scoped(
            *then_branch,
            depth,
        ) && well_scoped(*else_branch, depth),
        Expr::Effect { arg, .. } => well_scoped(*arg, depth),
        Expr::Annot { expr, .. } => well_scoped(*expr, depth),
    }
}

} // verus!

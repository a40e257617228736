use vstd::prelude::*;
use crate::ast::{Expr, Loc, Ty, INDEX_CAP, under_binder, has_effect, effects_permitted, well_scoped, sandbox_permits};
use crate::config::{PipelineConfig, PurityLevel, TypeSystem};

verus! {

/// Why a unit was rejected at check time.
#[derive(Debug, Clone, Copy, PartialEq, Eq, Structural)]
pub enum TypeError {
    /// A variable whose de Bruijn index reaches past every enclosing binder.
    UnresolvedReference { index: u64, loc: Loc },
    /// A call of an effectful primitive that the unit's purity level forbids.
    EffectNotPermitted { prim: u64, loc: Loc },
    /// A subterm whose kind is known statically stands where another kind
    /// is required; `loc` is the subterm's.
    KindConflict { expected: Ty, found: Ty, loc: Loc },
    /// Under the inferred and dependent disciplines: a subterm whose kind
    /// cannot be established stands where the kind `expected` is required.
    KindUnknown { expected: Ty, loc: Loc },
}

/// Whether primitive `prim` may be called at `purity`.
pub open spec fn prim_permitted(prim: u64, purity: PurityLevel) -> bool {
    match purity {
        PurityLevel::Pure => false,
        PurityLevel::Sandbox => sandbox_permits(prim),
        PurityLevel::Unrestricted => true,
    }
}

/// The first forbidden effect call in pre-order, left to right.
pub open spec fn first_forbidden_effect(e: Expr, purity: PurityLevel) -> Option<(u64, Loc)>
    decreases e,
{
    match e {
        Expr::Int { .. } | Expr::Bool { .. } | Expr::Var { .. } => None,
        Expr::Lam { body, .. } => first_forbidden_effect(*body, purity),
        Expr::App { func: a, arg: b, .. } | Expr::Let { bound: a, body: b, .. } | Expr::Add {
            left: a,
            right: b,
            ..
        } => match first_forbidden_effect(*a, purity) {
            Some(x) => Some(x),
            None => first_forbidden_effect(*b, purity),
        },
        Expr::If { cond, then_branch, else_branch, .. } => match first_forbidden_effect(*cond, purity) {
            Some(x) => Some(x),
            None => match first_forbidden_effect(*then_branch, purity) {
                Some(x) => Some(x),
                None => first_forbidden_effect(*else_branch, purity),
            },
        },
        Expr::Effect { prim, arg, loc } => if !prim_permitted(prim, purity) {
            Some((prim, loc))
        } else {
            first_forbidden_effect(*arg, purity)
        },
        Expr::Annot { expr, .. } => first_forbidden_effect(*expr, purity),
    }
}

/// The first unbound variable in pre-order, left to right, under `depth`
/// enclosing binders.
pub open spec fn first_unbound(e: Expr, depth: int) -> Option<(u64, Loc)>
    decreases e,
{
    match e {
        Expr::Int { .. } | Expr::Bool { .. } => None,
        Expr::Var { index, loc } => if index < depth {
            None
        } else {
            Some((index, loc))
        },
        Expr::Lam { body, .. } => first_unbound(*body, depth + 1),
        Expr::Let { bound, body, .. } => match first_unbound(*bound, depth) {
            Some(x) => Some(x),
            None => first_unbound(*body, depth + 1),
        },
        Expr::App { func: a, arg: b, .. } | Expr::Add { left: a, right: b, .. } => match first_unbound(
            *a,
            depth,
        ) {
            Some(x) => Some(x),
            None => first_unbound(*b, depth),
        },
        Expr::If { cond, then_branch, else_branch, .. } => match first_unbound(*cond, depth) {
            Some(x) => Some(x),
            None => match first_unbound(*then_branch, depth) {
                Some(x) => Some(x),
                None => first_unbound(*else_branch, depth),
            },
        },
        Expr::Effect { arg, .. } => first_unbound(*arg, depth),
        Expr::Annot { expr, .. } => first_unbound(*expr, depth),
    }
}

/// The kind of value a subterm has whenever it has one, where that is
/// known without running it.
pub open spec fn static_kind(e: Expr) -> Option<Ty> {
    match e {
        Expr::Int { .. } | Expr::Add { .. } => Some(Ty::Int),
        Expr::Bool { .. } => Some(Ty::Bool),
        Expr::Lam { .. } => Some(Ty::Fun),
        Expr::Annot { ty, .. } => Some(ty),
        _ => None,
    }
}

/// A conflict between the kind `required` and the static kind of `e`.
pub open spec fn conflict_at(e: Expr, required: Ty) -> Option<(Ty, Ty, Loc)> {
    match static_kind(e) {
        Some(k) => if k != required {
            Some((required, k, e.loc_spec()))
        } else {
            None
        },
        None => None,
    }
}

/// The first kind conflict in pre-order, left to right: at each node its
/// own operands first, then its children's subtrees.
pub open spec fn first_conflict(e: Expr) -> Option<(Ty, Ty, Loc)>
    decreases e,
{
    match e {
        Expr::Int { .. } | Expr::Bool { .. } | Expr::Var { .. } => None,
        Expr::Lam { body, .. } => first_conflict(*body),
        Expr::App { func, arg, .. } => match conflict_at(*func, Ty::Fun) {
            Some(x) => Some(x),
            None => match first_conflict(*func) {
                Some(x) => Some(x),
                None => first_conflict(*arg),
            },
        },
        Expr::Let { bound, body, .. } => match first_conflict(*bound) {
            Some(x) => Some(x),
            None => first_conflict(*body),
        },
        Expr::Add { left, right, .. } => match conflict_at(*left, Ty::Int) {
            Some(x) => Some(x),
            None => match conflict_at(*right, Ty::Int) {
                Some(x) => Some(x),
                None => match first_conflict(*left) {
                    Some(x) => Some(x),
                    None => first_conflict(*right),
                },
            },
        },
        Expr::If { cond, then_branch, else_branch, .. } => match conflict_at(*cond, Ty::Bool) {
            Some(x) => Some(x),
            None => match first_conflict(*cond) {
                Some(x) => Some(x),
                None => match first_conflict(*then_branch) {
                    Some(x) => Some(x),
                    None => first_conflict(*else_branch),
                },
            },
        },
        Expr::Effect { arg, .. } => first_conflict(*arg),
        Expr::Annot { expr, ty, .. } => match conflict_at(*expr, ty) {
            Some(x) => Some(x),
            None => first_conflict(*expr),
        },
    }
}

/// The kind of variable `index` in an environment whose last entry is the
/// innermost binder; `None` where it is unknown or unbound.
pub open spec fn lookup(env: Seq<Option<Ty>>, index: u64) -> Option<Ty> {
    if index < env.len() {
        env[env.len() - 1 - index]
    } else {
        None
    }
}

/// The kind that `e` is established to have under `env`, the kinds of the
/// enclosing binders: a function's parameter has no established kind, a
/// `let` variable has the kind of its bound term.
pub open spec fn kind_in(env: Seq<Option<Ty>>, e: Expr) -> Option<Ty>
    decreases e,
{
    match e {
        Expr::Int { .. } | Expr::Add { .. } => Some(Ty::Int),
        Expr::Bool { .. } => Some(Ty::Bool),
        Expr::Lam { .. } => Some(Ty::Fun),
        Expr::Annot { ty, .. } => Some(ty),
        Expr::Var { index, .. } => lookup(env, index),
        Expr::If { then_branch, else_branch, .. } => if kind_in(env, *then_branch) == kind_in(
            env,
            *else_branch,
        ) {
            kind_in(env, *then_branch)
        } else {
            None
        },
        Expr::Let { bound, body, .. } => kind_in(env.push(kind_in(env, *bound)), *body),
        Expr::App { .. } | Expr::Effect { .. } => None,
    }
}

/// The typing judgment of the inferred and dependent disciplines: every
/// operand of an addition is established to be an integer, every
/// condition a boolean, every applied term a function, and every annotated
/// term of its declared kind.
pub open spec fn typed_in(env: Seq<Option<Ty>>, e: Expr) -> bool
    decreases e,
{
    match e {
        Expr::Int { .. } | Expr::Bool { .. } | Expr::Var { .. } => true,
        Expr::Lam { body, .. } => typed_in(env.push(None), *body),
        Expr::App { func, arg, .. } => kind_in(env, *func) == Some(Ty::Fun) && typed_in(env, *func)
            && typed_in(env, *arg),
        Expr::Let { bound, body, .. } => typed_in(env, *bound) && typed_in(
            env.push(kind_in(env, *bound)),
            *body,
        ),
        Expr::Add { left, right, .. } => kind_in(env, *left) == Some(Ty::Int) && kind_in(env, *right)
            == Some(Ty::Int) && typed_in(env, *left) && typed_in(env, *right),
        Expr::If { cond, then_branch, else_branch, .. } => kind_in(env, *cond) == Some(Ty::Bool)
            && typed_in(env, *cond) && typed_in(env, *then_branch) && typed_in(env, *else_branch),
        Expr::Effect { arg, .. } => typed_in(env, *arg),
        Expr::Annot { expr, ty, .. } => kind_in(env, *expr) == Some(ty) && typed_in(env, *expr),
    }
}

/// The typing error for `e` standing where kind `required` is needed.
pub open spec fn demand(env: Seq<Option<Ty>>, e: Expr, required: Ty) -> Option<TypeError> {
    match kind_in(env, e) {
        Some(k) => if k == required {
            None
        } else {
            Some(TypeError::KindConflict { expected: required, found: k, loc: e.loc_spec() })
        },
        None => Some(TypeError::KindUnknown { expected: required, loc: e.loc_spec() }),
    }
}

/// The first typing error in pre-order, left to right: at each node its own
/// operands first, then its children's subtrees.
pub open spec fn first_untyped(env: Seq<Option<Ty>>, e: Expr) -> Option<TypeError>
    decreases e,
{
    match e {
        Expr::Int { .. } | Expr::Bool { .. } | Expr::Var { .. } => None,
        Expr::Lam { body, .. } => first_untyped(env.push(None), *body),
        Expr::App { func, arg, .. } => match demand(env, *func, Ty::Fun) {
            Some(x) => Some(x),
            None => match first_untyped(env, *func) {
                Some(x) => Some(x),
                None => first_untyped(env, *arg),
            },
        },
        Expr::Let { bound, body, .. } => match first_untyped(env, *bound) {
            Some(x) => Some(x),
            None => first_untyped(env.push(kind_in(env, *bound)), *body),
        },
        Expr::Add { left, right, .. } => match demand(env, *left, Ty::Int) {
            Some(x) => Some(x),
            None => match demand(env, *right, Ty::Int) {
                Some(x) => Some(x),
                None => match first_untyped(env, *left) {
                    Some(x) => Some(x),
                    None => first_untyped(env, *right),
                },
            },
        },
        Expr::If { cond, then_branch, else_branch, .. } => match demand(env, *cond, Ty::Bool) {
            Some(x) => Some(x),
            None => match first_untyped(env, *cond) {
                Some(x) => Some(x),
                None => match first_untyped(env, *then_branch) {
                    Some(x) => Some(x),
                    None => first_untyped(env, *else_branch),
                },
            },
        },
        Expr::Effect { arg, .. } => first_untyped(env, *arg),
        Expr::Annot { expr, ty, .. } => match demand(env, *expr, ty) {
            Some(x) => Some(x),
            None => first_untyped(env, *expr),
        },
    }
}

/// No typing error is found exactly when the judgment holds.
pub proof fn lemma_untyped_iff(env: Seq<Option<Ty>>, e: Expr)
    ensures
        first_untyped(env, e) is None <==> typed_in(env, e),
    decreases e,
{
    match e {
        Expr::Int { .. } | Expr::Bool { .. } | Expr::Var { .. } => {},
        Expr::Lam { body, .. } => lemma_untyped_iff(env.push(None), *body),
        Expr::Let { bound, body, .. } => {
            lemma_untyped_iff(env, *bound);
            lemma_untyped_iff(env.push(kind_in(env, *bound)), *body);
        },
        Expr::App { func: a, arg: b, .. } | Expr::Add { left: a, right: b, .. } => {
            lemma_untyped_iff(env, *a);
            lemma_untyped_iff(env, *b);
        },
        Expr::If { cond, then_branch, else_branch, .. } => {
            lemma_untyped_iff(env, *cond);
            lemma_untyped_iff(env, *then_branch);
            lemma_untyped_iff(env, *else_branch);
        },
        Expr::Effect { arg, .. } => lemma_untyped_iff(env, *arg),
        Expr::Annot { expr, .. } => lemma_untyped_iff(env, *expr),
    }
}

/// The result of the kind check of discipline `ts` on a closed unit: none
/// under the dynamic one, syntactic kind conflicts under the gradual one,
/// the typing judgment under the inferred and dependent ones.
pub open spec fn kind_check(e: Expr, ts: TypeSystem) -> Option<TypeError> {
    match ts {
        TypeSystem::Dynamic => None,
        TypeSystem::Gradual => match first_conflict(e) {
            Some((expected, found, loc)) => Some(TypeError::KindConflict { expected, found, loc }),
            None => None,
        },
        _ => first_untyped(Seq::empty(), e),
    }
}

/// The outcome of checking a closed unit: a forbidden effect is reported
/// first, then an unbound variable, then the discipline's kind check.
pub open spec fn check_result(e: Expr, ts: TypeSystem, purity: PurityLevel) -> Result<(), TypeError> {
    match first_forbidden_effect(e, purity) {
        Some((prim, loc)) => Err(TypeError::EffectNotPermitted { prim, loc }),
        None => match first_unbound(e, 0) {
            Some((index, loc)) => Err(TypeError::UnresolvedReference { index, loc }),
            None => match kind_check(e, ts) {
                Some(x) => Err(x),
                None => Ok(()),
            },
        },
    }
}

/// No forbidden effect is found exactly when every effect is permitted.
pub proof fn lemma_forbidden_effect_iff(e: Expr, purity: PurityLevel)
    ensures
        first_forbidden_effect(e, purity) is None <==> effects_permitted(e, purity),
    decreases e,
{
    match e {
        Expr::Int { .. } | Expr::Bool { .. } | Expr::Var { .. } => {},
        Expr::Lam { body, .. } => lemma_forbidden_effect_iff(*body, purity),
        Expr::App { func: a, arg: b, .. } | Expr::Let { bound: a, body: b, .. } | Expr::Add {
            left: a,
            right: b,
            ..
        } => {
            lemma_forbidden_effect_iff(*a, purity);
            lemma_forbidden_effect_iff(*b, purity);
        },
        Expr::If { cond, then_branch, else_branch, .. } => {
            lemma_forbidden_effect_iff(*cond, purity);
            lemma_forbidden_effect_iff(*then_branch, purity);
            lemma_forbidden_effect_iff(*else_branch, purity);
        },
        Expr::Effect { arg, .. } => lemma_forbidden_effect_iff(*arg, purity),
        Expr::Annot { expr, .. } => lemma_forbidden_effect_iff(*expr, purity),
    }
}

/// No unbound variable is found exactly when the tree is well scoped.
pub proof fn lemma_unbound_iff(e: Expr, depth: int)
    ensures
        first_unbound(e, depth) is None <==> well_scoped(e, depth),
    decreases e,
{
    match e {
        Expr::Int { .. } | Expr::Bool { .. } | Expr::Var { .. } => {},
        Expr::Lam { body, .. } => lemma_unbound_iff(*body, depth + 1),
        Expr::Let { bound, body, .. } => {
            lemma_unbound_iff(*bound, depth);
            lemma_unbound_iff(*body, depth + 1);
        },
        Expr::App { func: a, arg: b, .. } | Expr::Add { left: a, right: b, .. } => {
            lemma_unbound_iff(*a, depth);
            lemma_unbound_iff(*b, depth);
        },
        Expr::If { cond, then_branch, else_branch, .. } => {
            lemma_unbound_iff(*cond, depth);
            lemma_unbound_iff(*then_branch, depth);
            lemma_unbound_iff(*else_branch, depth);
        },
        Expr::Effect { arg, .. } => lemma_unbound_iff(*arg, depth),
        Expr::Annot { expr, .. } => lemma_unbound_iff(*expr, depth),
    }
}

/// Beyond the largest index, adding binders changes nothing.
proof fn lemma_unbound_saturates(e: Expr, d1: int, d2: int)
    requires
        d1 > u64::MAX,
        d2 > u64::MAX,
    ensures
        first_unbound(e, d1) == first_unbound(e, d2),
    decreases e,
{
    match e {
        Expr::Int { .. } | Expr::Bool { .. } | Expr::Var { .. } => {},
        Expr::Lam { body, .. } => lemma_unbound_saturates(*body, d1 + 1, d2 + 1),
        Expr::Let { bound, body, .. } => {
            lemma_unbound_saturates(*bound, d1, d2);
            lemma_unbound_saturates(*body, d1 + 1, d2 + 1);
        },
        Expr::App { func: a, arg: b, .. } | Expr::Add { left: a, right: b, .. } => {
            lemma_unbound_saturates(*a, d1, d2);
            lemma_unbound_saturates(*b, d1, d2);
        },
        Expr::If { cond, then_branch, else_branch, .. } => {
            lemma_unbound_saturates(*cond, d1, d2);
            lemma_unbound_saturates(*then_branch, d1, d2);
            lemma_unbound_saturates(*else_branch, d1, d2);
        },
        Expr::Effect { arg, .. } => lemma_unbound_saturates(*arg, d1, d2),
        Expr::Annot { expr, .. } => lemma_unbound_saturates(*expr, d1, d2),
    }
}

/// Whether primitive `prim` may be called at `purity`.
pub fn is_prim_permitted(prim: u64, purity: PurityLevel) -> (r: bool)
    ensures
        r == prim_permitted(prim, purity),
{
    match purity {
        PurityLevel::Pure => false,
        PurityLevel::Sandbox => prim == crate::ast::PRIM_LOG || prim == crate::ast::PRIM_READ_CONFIG,
        PurityLevel::Unrestricted => true,
    }
}

/// Finds the first effect call that `purity` forbids.
pub fn find_forbidden_effect(e: &Expr, purity: PurityLevel) -> (r: Option<(u64, Loc)>)
    ensures
        r == first_forbidden_effect(*e, purity),
    decreases e,
{
    match e {
        Expr::Int { .. } | Expr::Bool { .. } | Expr::Var { .. } => None,
        Expr::Lam { body, .. } => find_forbidden_effect(body, purity),
        Expr::App { func: a, arg: b, .. } | Expr::Let { bound: a, body: b, .. } | Expr::Add {
            left: a,
            right: b,
            ..
        } => match find_forbidden_effect(a, purity) {
            Some(x) => Some(x),
            None => find_forbidden_effect(b, purity),
        },
        Expr::If { cond, then_branch, else_branch, .. } => match find_forbidden_effect(cond, purity) {
            Some(x) => Some(x),
            None => match find_forbidden_effect(then_branch, purity) {
                Some(x) => Some(x),
                None => find_forbidden_effect(else_branch, purity),
            },
        },
        Expr::Effect { prim, arg, loc } => if !is_prim_permitted(*prim, purity) {
            Some((*prim, *loc))
        } else {
            find_forbidden_effect(arg, purity)
        },
        Expr::Annot { expr, .. } => find_forbidden_effect(expr, purity),
    }
}

/// Finds the first unbound variable under `depth` enclosing binders, where a
/// depth of `INDEX_CAP` stands for any larger one.
fn find_unbound(e: &Expr, depth: u128) -> (r: Option<(u64, Loc)>)
    requires
        depth <= INDEX_CAP,
    ensures
        r == first_unbound(*e, depth as int),
        depth == INDEX_CAP ==> r == first_unbound(*e, depth + 1),
    decreases e,
{
    proof {
        if depth == INDEX_CAP {
            lemma_unbound_saturates(*e, depth as int, depth + 1);
        }
    }
    match e {
        Expr::Int { .. } | Expr::Bool { .. } => None,
        Expr::Var { index, loc } => if (*index as u128) < depth {
            None
        } else {
            Some((*index, *loc))
        },
        Expr::Lam { body, .. } => find_unbound(body, under_binder(depth)),
        Expr::Let { bound, body, .. } => match find_unbound(bound, depth) {
            Some(x) => Some(x),
            None => find_unbound(body, under_binder(depth)),
        },
        Expr::App { func: a, arg: b, .. } | Expr::Add { left: a, right: b, .. } => match find_unbound(
            a,
            depth,
        ) {
            Some(x) => Some(x),
            None => find_unbound(b, depth),
        },
        Expr::If { cond, then_branch, else_branch, .. } => match find_unbound(cond, depth) {
            Some(x) => Some(x),
            None => match find_unbound(then_branch, depth) {
                Some(x) => Some(x),
                None => find_unbound(else_branch, depth),
            },
        },
        Expr::Effect { arg, .. } => find_unbound(arg, depth),
        Expr::Annot { expr, .. } => find_unbound(expr, depth),
    }
}

fn kind_of(e: &Expr) -> (r: Option<Ty>)
    ensures
        r == static_kind(*e),
{
    match e {
        Expr::Int { .. } | Expr::Add { .. } => Some(Ty::Int),
        Expr::Bool { .. } => Some(Ty::Bool),
        Expr::Lam { .. } => Some(Ty::Fun),
        Expr::Annot { ty, .. } => Some(*ty),
        _ => None,
    }
}

fn conflict_with(e: &Expr, required: Ty) -> (r: Option<(Ty, Ty, Loc)>)
    ensures
        r == conflict_at(*e, required),
{
    match kind_of(e) {
        Some(k) => if k != required {
            Some((required, k, e.loc()))
        } else {
            None
        },
        None => None,
    }
}

/// Finds the first kind conflict (see `first_conflict`).
pub fn find_conflict(e: &Expr) -> (r: Option<(Ty, Ty, Loc)>)
    ensures
        r == first_conflict(*e),
    decreases e,
{
    match e {
        Expr::Int { .. } | Expr::Bool { .. } | Expr::Var { .. } => None,
        Expr::Lam { body, .. } => find_conflict(body),
        Expr::App { func, arg, .. } => match conflict_with(func, Ty::Fun) {
            Some(x) => Some(x),
            None => match find_conflict(func) {
                Some(x) => Some(x),
                None => find_conflict(arg),
            },
        },
        Expr::Let { bound, body, .. } => match find_conflict(bound) {
            Some(x) => Some(x),
            None => find_conflict(body),
        },
        Expr::Add { left, right, .. } => match conflict_with(left, Ty::Int) {
            Some(x) => Some(x),
            None => match conflict_with(right, Ty::Int) {
                Some(x) => Some(x),
                None => match find_conflict(left) {
                    Some(x) => Some(x),
                    None => find_conflict(right),
                },
            },
        },
        Expr::If { cond, then_branch, else_branch, .. } => match conflict_with(cond, Ty::Bool) {
            Some(x) => Some(x),
            None => match find_conflict(cond) {
                Some(x) => Some(x),
                None => match find_conflict(then_branch) {
                    Some(x) => Some(x),
                    None => find_conflict(else_branch),
                },
            },
        },
        Expr::Effect { arg, .. } => find_conflict(arg),
        Expr::Annot { expr, ty, .. } => match conflict_with(expr, *ty) {
            Some(x) => Some(x),
            None => find_conflict(expr),
        },
    }
}

fn lookup_exec(env: &Vec<Option<Ty>>, index: u64) -> (r: Option<Ty>)
    ensures
        r == lookup(env@, index),
{
    if (index as u128) < (env.len() as u128) {
        env[env.len() - 1 - index as usize]
    } else {
        None
    }
}

/// The established kind of `e` under `env` (see `kind_in`).
pub fn kind_in_env(env: &mut Vec<Option<Ty>>, e: &Expr) -> (r: Option<Ty>)
    ensures
        r == kind_in(old(env)@, *e),
        final(env)@ == old(env)@,
    decreases e,
{
    match e {
        Expr::Int { .. } | Expr::Add { .. } => Some(Ty::Int),
        Expr::Bool { .. } => Some(Ty::Bool),
        Expr::Lam { .. } => Some(Ty::Fun),
        Expr::Annot { ty, .. } => Some(*ty),
        Expr::Var { index, .. } => lookup_exec(env, *index),
        Expr::If { then_branch, else_branch, .. } => {
            let a = kind_in_env(env, then_branch);
            let b = kind_in_env(env, else_branch);
            if a == b {
                a
            } else {
                None
            }
        },
        Expr::Let { bound, body, .. } => {
            let k = kind_in_env(env, bound);
            env.push(k);
            let r = kind_in_env(env, body);
            env.pop();
            r
        },
        Expr::App { .. } | Expr::Effect { .. } => None,
    }
}

fn demand_exec(env: &mut Vec<Option<Ty>>, e: &Expr, required: Ty) -> (r: Option<TypeError>)
    ensures
        r == demand(old(env)@, *e, required),
        final(env)@ == old(env)@,
{
    match kind_in_env(env, e) {
        Some(k) => if k == required {
            None
        } else {
            Some(TypeError::KindConflict { expected: required, found: k, loc: e.loc() })
        },
        None => Some(TypeError::KindUnknown { expected: required, loc: e.loc() }),
    }
}

/// Finds the first typing error under `env` (see `first_untyped`).
pub fn find_untyped(env: &mut Vec<Option<Ty>>, e: &Expr) -> (r: Option<TypeError>)
    ensures
        r == first_untyped(old(env)@, *e),
        final(env)@ == old(env)@,
    decreases e,
{
    match e {
        Expr::Int { .. } | Expr::Bool { .. } | Expr::Var { .. } => None,
        Expr::Lam { body, .. } => {
            env.push(None);
            let r = find_untyped(env, body);
            env.pop();
            r
        },
        Expr::App { func, arg, .. } => match demand_exec(env, func, Ty::Fun) {
            Some(x) => Some(x),
            None => match find_untyped(env, func) {
                Some(x) => Some(x),
                None => find_untyped(env, arg),
            },
        },
        Expr::Let { bound, body, .. } => match find_untyped(env, bound) {
            Some(x) => Some(x),
            None => {
                let k = kind_in_env(env, bound);
                env.push(k);
                let r = find_untyped(env, body);
                env.pop();
                r
            },
        },
        Expr::Add { left, right, .. } => match demand_exec(env, left, Ty::Int) {
            Some(x) => Some(x),
            None => match demand_exec(env, right, Ty::Int) {
                Some(x) => Some(x),
                None => match find_untyped(env, left) {
                    Some(x) => Some(x),
                    None => find_untyped(env, right),
                },
            },
        },
        Expr::If { cond, then_branch, else_branch, .. } => match demand_exec(env, cond, Ty::Bool) {
            Some(x) => Some(x),
            None => match find_untyped(env, cond) {
                Some(x) => Some(x),
                None => match find_untyped(env, then_branch) {
                    Some(x) => Some(x),
                    None => find_untyped(env, else_branch),
                },
            },
        },
        Expr::Effect { arg, .. } => find_untyped(env, arg),
        Expr::Annot { expr, ty, .. } => match demand_exec(env, expr, *ty) {
            Some(x) => Some(x),
            None => find_untyped(env, expr),
        },
    }
}

/// Checks a closed unit: every effect call must be permitted by the
/// configured purity level and every variable must be bound. Under the
/// gradual discipline no subterm may have a syntactically known kind other
/// than the one its position requires; under the inferred and dependent
/// ones the unit must satisfy the typing judgment `typed_in`.
pub fn check_unit(e: &Expr, config: &PipelineConfig) -> (r: Result<(), TypeError>)
    ensures
        r == check_result(*e, config.type_system, config.purity_level),
        r is Ok <==> effects_permitted(*e, config.purity_level) && well_scoped(*e, 0) && kind_check(
            *e,
            config.type_system,
        ) is None,
        (config.type_system == TypeSystem::Inferred || config.type_system == TypeSystem::Dependent)
            ==> (r is Ok ==> typed_in(Seq::empty(), *e)),
        config.type_system == TypeSystem::Gradual ==> (r is Ok ==> first_conflict(*e) is None),
{
    proof {
        lemma_forbidden_effect_iff(*e, config.purity_level);
        lemma_unbound_iff(*e, 0);
        lemma_untyped_iff(Seq::empty(), *e);
    }
    match find_forbidden_effect(e, config.purity_level) {
        Some((prim, loc)) => Err(TypeError::EffectNotPermitted { prim, loc }),
        None => match find_unbound(e, 0) {
            Some((index, loc)) => Err(TypeError::UnresolvedReference { index, loc }),
            None => match config.type_system {
                TypeSystem::Dynamic => Ok(()),
                TypeSystem::Gradual => match find_conflict(e) {
                    Some((expected, found, loc)) => Err(TypeError::KindConflict { expected, found, loc }),
                    None => Ok(()),
                },
                _ => {
                    let mut env: Vec<Option<Ty>> = Vec::new();
                    assert(env@ =~= Seq::<Option<Ty>>::empty());
                    match find_untyped(&mut env, e) {
                        Some(x) => Err(x),
                        None => Ok(()),
                    }
                },
            },
        },
    }
}

/// A unit that calls an effectful primitive is rejected under the pure level
/// with an effect error, in every discipline; under the unrestricted level
/// it is accepted unless it fails a check that has nothing to do with
/// effects (an unbound variable, the discipline's kind check).
pub proof fn lemma_purity_enforcement(e: Expr, ts: TypeSystem)
    requires
        has_effect(e),
    ensures
        check_result(e, ts, PurityLevel::Pure) is Err,
        check_result(e, ts, PurityLevel::Pure)->Err_0 is EffectNotPermitted,
        well_scoped(e, 0) && kind_check(e, ts) is None
            ==> check_result(e, ts, PurityLevel::Unrestricted) == Ok::<(), TypeError>(()),
{
    lemma_pure_rejects(e);
    lemma_unrestricted_permits(e);
    lemma_forbidden_effect_iff(e, PurityLevel::Unrestricted);
    lemma_unbound_iff(e, 0);
}

proof fn lemma_pure_rejects(e: Expr)
    requires
        has_effect(e),
    ensures
        first_forbidden_effect(e, PurityLevel::Pure) is Some,
    decreases e,
{
    match e {
        Expr::Int { .. } | Expr::Bool { .. } | Expr::Var { .. } => {},
        Expr::Lam { body, .. } => lemma_pure_rejects(*body),
        Expr::App { func: a, arg: b, .. } | Expr::Let { bound: a, body: b, .. } | Expr::Add {
            left: a,
            right: b,
            ..
        } => {
            if has_effect(*a) {
                lemma_pure_rejects(*a);
            } else {
                lemma_pure_rejects(*b);
            }
        },
        Expr::If { cond, then_branch, else_branch, .. } => {
            if has_effect(*cond) {
                lemma_pure_rejects(*cond);
            } else if has_effect(*then_branch) {
                lemma_pure_rejects(*then_branch);
            } else {
                lemma_pure_rejects(*else_branch);
            }
        },
        Expr::Effect { .. } => {},
        Expr::Annot { expr, .. } => lemma_pure_rejects(*expr),
    }
}

proof fn lemma_unrestricted_permits(e: Expr)
    ensures
        effects_permitted(e, PurityLevel::Unrestricted),
    decreases e,
{
    match e {
        Expr::Int { .. } | Expr::Bool { .. } | Expr::Var { .. } => {},
        Expr::Lam { body, .. } => lemma_unrestricted_permits(*body),
        Expr::App { func: a, arg: b, .. } | Expr::Let { bound: a, body: b, .. } | Expr::Add {
            left: a,
            right: b,
            ..
        } => {
            lemma_unrestricted_permits(*a);
            lemma_unrestricted_permits(*b);
        },
        Expr::If { cond, then_branch, else_branch, .. } => {
            lemma_unrestricted_permits(*cond);
            lemma_unrestricted_permits(*then_branch);
            lemma_unrestricted_permits(*else_branch);
        },
        Expr::Effect { arg, .. } => lemma_unrestricted_permits(*arg),
        Expr::Annot { expr, .. } => lemma_unrestricted_permits(*expr),
    }
}

} // verus!

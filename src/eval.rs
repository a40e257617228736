use vstd::prelude::*;
use crate::ast::{Expr, Loc, Ty, INDEX_CAP, under_binder};
use crate::config::OptimizationLevel;

verus! {

/// Why evaluation of a unit stopped without a value.
#[derive(Debug, Clone, Copy, PartialEq, Eq, Structural)]
pub enum EvalError {
    /// A value had the wrong kind: a boolean added, an integer tested by a
    /// conditional, or a value that does not fit its annotation.
    TypeConfusion { loc: Loc },
    /// A value that is not a function was applied to an argument.
    ArityMismatch { loc: Loc },
    /// A variable with no binder was reached.
    UnboundVariable { loc: Loc },
    /// The step budget ran out.
    OutOfFuel,
}

/// The sum of two integers, wrapping modulo 2^64.
pub open spec fn wrap_add(a: u64, b: u64) -> u64 {
    ((a + b) % 0x1_0000_0000_0000_0000) as u64
}

/// Adds two integers, wrapping modulo 2^64.
pub fn add_wrapping(a: u64, b: u64) -> (r: u64)
    ensures
        r == wrap_add(a, b),
{
    if a <= u64::MAX - b {
        a + b
    } else {
        a - (u64::MAX - b) - 1
    }
}

/// Whether value `v` is of the kind `t`.
pub open spec fn has_kind(v: Expr, t: Ty) -> bool {
    match t {
        Ty::Int => v is Int,
        Ty::Bool => v is Bool,
        Ty::Fun => v is Lam,
    }
}

/// Replaces variable `k` of `e` by `v`, and lowers the variables above `k`
/// by one, as the binder of `k` goes away. `v` is closed, so it is not
/// shifted under binders.
pub open spec fn subst(e: Expr, k: int, v: Expr) -> Expr
    decreases e,
{
    match e {
        Expr::Int { .. } | Expr::Bool { .. } => e,
        Expr::Var { index, loc } => if index == k {
            v
        } else if index > k {
            Expr::Var { index: (index - 1) as u64, loc }
        } else {
            e
        },
        Expr::Lam { body, loc } => Expr::Lam { body: Box::new(subst(*body, k + 1, v)), loc },
        Expr::App { func, arg, loc } => Expr::App {
            func: Box::new(subst(*func, k, v)),
            arg: Box::new(subst(*arg, k, v)),
            loc,
        },
        Expr::Let { bound, body, loc } => Expr::Let {
            bound: Box::new(subst(*bound, k, v)),
            body: Box::new(subst(*body, k + 1, v)),
            loc,
        },
        Expr::Add { left, right, loc } => Expr::Add {
            left: Box::new(subst(*left, k, v)),
            right: Box::new(subst(*right, k, v)),
            loc,
        },
        Expr::If { cond, then_branch, else_branch, loc } => Expr::If {
            cond: Box::new(subst(*cond, k, v)),
            then_branch: Box::new(subst(*then_branch, k, v)),
            else_branch: Box::new(subst(*else_branch, k, v)),
            loc,
        },
        Expr::Effect { prim, arg, loc } => Expr::Effect { prim, arg: Box::new(subst(*arg, k, v)), loc },
        Expr::Annot { expr, ty, loc } => Expr::Annot { expr: Box::new(subst(*expr, k, v)), ty, loc },
    }
}

/// Call-by-value evaluation, left to right, with `fuel` nested steps: each
/// evaluation of a subterm costs one unit. Addition wraps modulo 2^64. An
/// effect call evaluates to the value of its argument: the primitive's action
/// is the driver's, and the check stage decides whether it is permitted.
pub open spec fn eval(e: Expr, fuel: nat) -> Result<Expr, EvalError>
    decreases fuel,
{
    if fuel == 0 {
        Err(EvalError::OutOfFuel)
    } else {
        let f = (fuel - 1) as nat;
        match e {
            Expr::Int { .. } | Expr::Bool { .. } | Expr::Lam { .. } => Ok(e),
            Expr::Var { loc, .. } => Err(EvalError::UnboundVariable { loc }),
            Expr::App { func, arg, loc } => match eval(*func, f) {
                Err(x) => Err(x),
                Ok(fv) => match eval(*arg, f) {
                    Err(x) => Err(x),
                    Ok(av) => match fv {
                        Expr::Lam { body, .. } => eval(subst(*body, 0, av), f),
                        _ => Err(EvalError::ArityMismatch { loc }),
                    },
                },
            },
            Expr::Let { bound, body, .. } => match eval(*bound, f) {
                Err(x) => Err(x),
                Ok(bv) => eval(subst(*body, 0, bv), f),
            },
            Expr::Add { left, right, loc } => match eval(*left, f) {
                Err(x) => Err(x),
                Ok(lv) => match eval(*right, f) {
                    Err(x) => Err(x),
                    Ok(rv) => match (lv, rv) {
                        (Expr::Int { value: a, .. }, Expr::Int { value: b, .. }) => Ok(
                            Expr::Int { value: wrap_add(a, b), loc },
                        ),
                        _ => Err(EvalError::TypeConfusion { loc }),
                    },
                },
            },
            Expr::If { cond, then_branch, else_branch, loc } => match eval(*cond, f) {
                Err(x) => Err(x),
                Ok(Expr::Bool { value, .. }) => if value {
                    eval(*then_branch, f)
                } else {
                    eval(*else_branch, f)
                },
                Ok(_) => Err(EvalError::TypeConfusion { loc }),
            },
            Expr::Effect { arg, .. } => eval(*arg, f),
            Expr::Annot { expr, ty, loc } => match eval(*expr, f) {
                Err(x) => Err(x),
                Ok(v) => if has_kind(v, ty) {
                    Ok(v)
                } else {
                    Err(EvalError::TypeConfusion { loc })
                },
            },
        }
    }
}

/// A copy of `e`.
pub fn copy_expr(e: &Expr) -> (r: Expr)
    ensures
        r == *e,
    decreases e,
{
    match e {
        Expr::Int { value, loc } => Expr::Int { value: *value, loc: *loc },
        Expr::Bool { value, loc } => Expr::Bool { value: *value, loc: *loc },
        Expr::Var { index, loc } => Expr::Var { index: *index, loc: *loc },
        Expr::Lam { body, loc } => Expr::Lam { body: Box::new(copy_expr(body)), loc: *loc },
        Expr::App { func, arg, loc } => Expr::App {
            func: Box::new(copy_expr(func)),
            arg: Box::new(copy_expr(arg)),
            loc: *loc,
        },
        Expr::Let { bound, body, loc } => Expr::Let {
            bound: Box::new(copy_expr(bound)),
            body: Box::new(copy_expr(body)),
            loc: *loc,
        },
        Expr::Add { left, right, loc } => Expr::Add {
            left: Box::new(copy_expr(left)),
            right: Box::new(copy_expr(right)),
            loc: *loc,
        },
        Expr::If { cond, then_branch, else_branch, loc } => Expr::If {
            cond: Box::new(copy_expr(cond)),
            then_branch: Box::new(copy_expr(then_branch)),
            else_branch: Box::new(copy_expr(else_branch)),
            loc: *loc,
        },
        Expr::Effect { prim, arg, loc } => Expr::Effect {
            prim: *prim,
            arg: Box::new(copy_expr(arg)),
            loc: *loc,
        },
        Expr::Annot { expr, ty, loc } => Expr::Annot { expr: Box::new(copy_expr(expr)), ty: *ty, loc: *loc },
    }
}

/// Past the largest index, the substitution point makes no difference.
proof fn lemma_subst_saturates(e: Expr, k1: int, k2: int, v: Expr)
    requires
        k1 > u64::MAX,
        k2 > u64::MAX,
    ensures
        subst(e, k1, v) == subst(e, k2, v),
    decreases e,
{
    match e {
        Expr::Int { .. } | Expr::Bool { .. } | Expr::Var { .. } => {},
        Expr::Lam { body, .. } => lemma_subst_saturates(*body, k1 + 1, k2 + 1, v),
        Expr::Let { bound, body, .. } => {
            lemma_subst_saturates(*bound, k1, k2, v);
            lemma_subst_saturates(*body, k1 + 1, k2 + 1, v);
        },
        Expr::App { func: a, arg: b, .. } | Expr::Add { left: a, right: b, .. } => {
            lemma_subst_saturates(*a, k1, k2, v);
            lemma_subst_saturates(*b, k1, k2, v);
        },
        Expr::If { cond, then_branch, else_branch, .. } => {
            lemma_subst_saturates(*cond, k1, k2, v);
            lemma_subst_saturates(*then_branch, k1, k2, v);
            lemma_subst_saturates(*else_branch, k1, k2, v);
        },
        Expr::Effect { arg, .. } => lemma_subst_saturates(*arg, k1, k2, v),
        Expr::Annot { expr, .. } => lemma_subst_saturates(*expr, k1, k2, v),
    }
}

/// Substitutes `v` for variable `k` in `e`, where a `k` of `INDEX_CAP`
/// stands for any larger one.
fn subst_exec(e: &Expr, k: u128, v: &Expr) -> (r: Expr)
    requires
        k <= INDEX_CAP,
    ensures
        r == subst(*e, k as int, *v),
        k == INDEX_CAP ==> r == subst(*e, k + 1, *v),
    decreases e,
{
    proof {
        if k == INDEX_CAP {
            lemma_subst_saturates(*e, k as int, k + 1, *v);
        }
    }
    match e {
        Expr::Int { value, loc } => Expr::Int { value: *value, loc: *loc },
        Expr::Bool { value, loc } => Expr::Bool { value: *value, loc: *loc },
        Expr::Var { index, loc } => {
            if *index as u128 == k {
                copy_expr(v)
            } else if *index as u128 > k {
                Expr::Var { index: *index - 1, loc: *loc }
            } else {
                Expr::Var { index: *index, loc: *loc }
            }
        },
        Expr::Lam { body, loc } => Expr::Lam { body: Box::new(subst_exec(body, under_binder(k), v)), loc: *loc },
        Expr::App { func, arg, loc } => Expr::App {
            func: Box::new(subst_exec(func, k, v)),
            arg: Box::new(subst_exec(arg, k, v)),
            loc: *loc,
        },
        Expr::Let { bound, body, loc } => Expr::Let {
            bound: Box::new(subst_exec(bound, k, v)),
            body: Box::new(subst_exec(body, under_binder(k), v)),
            loc: *loc,
        },
        Expr::Add { left, right, loc } => Expr::Add {
            left: Box::new(subst_exec(left, k, v)),
            right: Box::new(subst_exec(right, k, v)),
            loc: *loc,
        },
        Expr::If { cond, then_branch, else_branch, loc } => Expr::If {
            cond: Box::new(subst_exec(cond, k, v)),
            then_branch: Box::new(subst_exec(then_branch, k, v)),
            else_branch: Box::new(subst_exec(else_branch, k, v)),
            loc: *loc,
        },
        Expr::Effect { prim, arg, loc } => Expr::Effect {
            prim: *prim,
            arg: Box::new(subst_exec(arg, k, v)),
            loc: *loc,
        },
        Expr::Annot { expr, ty, loc } => Expr::Annot {
            expr: Box::new(subst_exec(expr, k, v)),
            ty: *ty,
            loc: *loc,
        },
    }
}

/// Substitutes the closed value `v` for the innermost variable of `body`.
pub fn instantiate(body: &Expr, v: &Expr) -> (r: Expr)
    ensures
        r == subst(*body, 0, *v),
{
    subst_exec(body, 0, v)
}

/// Evaluates a closed term with at most `fuel` nested steps.
pub fn eval_with_fuel(e: &Expr, fuel: u64) -> (r: Result<Expr, EvalError>)
    ensures
        r == eval(*e, fuel as nat),
    decreases fuel,
{
    if fuel == 0 {
        return Err(EvalError::OutOfFuel);
    }
    let f = fuel - 1;
    match e {
        Expr::Int { value, loc } => Ok(Expr::Int { value: *value, loc: *loc }),
        Expr::Bool { value, loc } => Ok(Expr::Bool { value: *value, loc: *loc }),
        Expr::Lam { .. } => Ok(copy_expr(e)),
        Expr::Var { loc, .. } => Err(EvalError::UnboundVariable { loc: *loc }),
        Expr::App { func, arg, loc } => match eval_with_fuel(func, f) {
            Err(x) => Err(x),
            Ok(fv) => match eval_with_fuel(arg, f) {
                Err(x) => Err(x),
                Ok(av) => match fv {
                    Expr::Lam { body, .. } => {
                        let s = instantiate(&body, &av);
                        eval_with_fuel(&s, f)
                    },
                    _ => Err(EvalError::ArityMismatch { loc: *loc }),
                },
            },
        },
        Expr::Let { bound, body, .. } => match eval_with_fuel(bound, f) {
            Err(x) => Err(x),
            Ok(bv) => {
                let s = instantiate(body, &bv);
                eval_with_fuel(&s, f)
            },
        },
        Expr::Add { left, right, loc } => match eval_with_fuel(left, f) {
            Err(x) => Err(x),
            Ok(lv) => match eval_with_fuel(right, f) {
                Err(x) => Err(x),
                Ok(rv) => match (lv, rv) {
                    (Expr::Int { value: a, .. }, Expr::Int { value: b, .. }) => Ok(
                        Expr::Int { value: add_wrapping(a, b), loc: *loc },
                    ),
                    _ => Err(EvalError::TypeConfusion { loc: *loc }),
                },
            },
        },
        Expr::If { cond, then_branch, else_branch, loc } => match eval_with_fuel(cond, f) {
            Err(x) => Err(x),
            Ok(Expr::Bool { value, .. }) => if value {
                eval_with_fuel(then_branch, f)
            } else {
                eval_with_fuel(else_branch, f)
            },
            Ok(_) => Err(EvalError::TypeConfusion { loc: *loc }),
        },
        Expr::Effect { arg, .. } => eval_with_fuel(arg, f),
        Expr::Annot { expr, ty, loc } => match eval_with_fuel(expr, f) {
            Err(x) => Err(x),
            Ok(v) => {
                let fits = match (ty, &v) {
                    (Ty::Int, Expr::Int { .. }) => true,
                    (Ty::Bool, Expr::Bool { .. }) => true,
                    (Ty::Fun, Expr::Lam { .. }) => true,
                    _ => false,
                };
                if fits {
                    Ok(v)
                } else {
                    Err(EvalError::TypeConfusion { loc: *loc })
                }
            },
        },
    }
}

/// Constant folding: an addition of two integer literals becomes the literal
/// of their wrapping sum, bottom-up. Subterms under a binder (a function
/// body, the body of a `let`) are left as they are.
pub open spec fn fold(e: Expr) -> Expr
    decreases e,
{
    match e {
        Expr::Int { .. } | Expr::Bool { .. } | Expr::Var { .. } | Expr::Lam { .. } => e,
        Expr::App { func, arg, loc } => Expr::App { func: Box::new(fold(*func)), arg: Box::new(fold(*arg)), loc },
        Expr::Let { bound, body, loc } => Expr::Let { bound: Box::new(fold(*bound)), body, loc },
        Expr::Add { left, right, loc } => match (fold(*left), fold(*right)) {
            (Expr::Int { value: a, .. }, Expr::Int { value: b, .. }) => Expr::Int {
                value: wrap_add(a, b),
                loc,
            },
            (l, r) => Expr::Add { left: Box::new(l), right: Box::new(r), loc },
        },
        Expr::If { cond, then_branch, else_branch, loc } => Expr::If {
            cond: Box::new(fold(*cond)),
            then_branch: Box::new(fold(*then_branch)),
            else_branch: Box::new(fold(*else_branch)),
            loc,
        },
        Expr::Effect { prim, arg, loc } => Expr::Effect { prim, arg: Box::new(fold(*arg)), loc },
        Expr::Annot { expr, ty, loc } => Expr::Annot { expr: Box::new(fold(*expr)), ty, loc },
    }
}

/// Constant-folds `e` (see `fold`).
pub fn fold_constants(e: &Expr) -> (r: Expr)
    ensures
        r == fold(*e),
    decreases e,
{
    match e {
        Expr::Int { .. } | Expr::Bool { .. } | Expr::Var { .. } | Expr::Lam { .. } => copy_expr(e),
        Expr::App { func, arg, loc } => Expr::App {
            func: Box::new(fold_constants(func)),
            arg: Box::new(fold_constants(arg)),
            loc: *loc,
        },
        Expr::Let { bound, body, loc } => Expr::Let {
            bound: Box::new(fold_constants(bound)),
            body: Box::new(copy_expr(body)),
            loc: *loc,
        },
        Expr::Add { left, right, loc } => {
            let l = fold_constants(left);
            let r = fold_constants(right);
            match (&l, &r) {
                (Expr::Int { value: a, .. }, Expr::Int { value: b, .. }) => {
                    return Expr::Int { value: add_wrapping(*a, *b), loc: *loc };
                },
                _ => {},
            }
            Expr::Add { left: Box::new(l), right: Box::new(r), loc: *loc }
        },
        Expr::If { cond, then_branch, else_branch, loc } => Expr::If {
            cond: Box::new(fold_constants(cond)),
            then_branch: Box::new(fold_constants(then_branch)),
            else_branch: Box::new(fold_constants(else_branch)),
            loc: *loc,
        },
        Expr::Effect { prim, arg, loc } => Expr::Effect {
            prim: *prim,
            arg: Box::new(fold_constants(arg)),
            loc: *loc,
        },
        Expr::Annot { expr, ty, loc } => Expr::Annot {
            expr: Box::new(fold_constants(expr)),
            ty: *ty,
            loc: *loc,
        },
    }
}

/// Folding constants keeps the result of every evaluation that does not run
/// out of steps: values and errors alike.
pub proof fn lemma_fold_preserves_eval(e: Expr, fuel: nat)
    requires
        eval(e, fuel) != Err::<Expr, EvalError>(EvalError::OutOfFuel),
    ensures
        eval(fold(e), fuel) == eval(e, fuel),
    decreases e,
{
    if fuel > 0 {
        let f = (fuel - 1) as nat;
        match e {
            Expr::App { func, arg, .. } => {
                if eval(*func, f) != Err::<Expr, EvalError>(EvalError::OutOfFuel) {
                    lemma_fold_preserves_eval(*func, f);
                    if eval(*func, f) is Ok {
                        lemma_fold_preserves_eval(*arg, f);
                    }
                }
            },
            Expr::Let { bound, .. } => {
                lemma_fold_preserves_eval(*bound, f);
            },
            Expr::Add { left, right, .. } => {
                lemma_fold_preserves_eval(*left, f);
                if eval(*left, f) is Ok {
                    lemma_fold_preserves_eval(*right, f);
                }
            },
            Expr::If { cond, then_branch, else_branch, .. } => {
                lemma_fold_preserves_eval(*cond, f);
                if eval(*cond, f) is Ok && eval(*cond, f)->Ok_0 is Bool {
                    if eval(*cond, f)->Ok_0->Bool_value {
                        lemma_fold_preserves_eval(*then_branch, f);
                    } else {
                        lemma_fold_preserves_eval(*else_branch, f);
                    }
                }
            },
            Expr::Annot { expr, .. } => {
                lemma_fold_preserves_eval(*expr, f);
            },
            Expr::Effect { arg, .. } => {
                lemma_fold_preserves_eval(*arg, f);
            },
            _ => {},
        }
    }
}

/// Evaluates a closed term at an optimization level, with at most `fuel`
/// nested steps. The reduction is call-by-value, left to right. At every
/// level an error is one of the four kinds of `EvalError`: type confusion,
/// arity mismatch (a non-function applied), an unbound variable (only for an
/// open term), or the step budget running out. The levels give the same
/// result except where the debug level runs out of steps
/// (`lemma_levels_agree`): folding saves steps.
pub fn evaluate(e: &Expr, optimization: OptimizationLevel, fuel: u64) -> (r: Result<Expr, EvalError>)
    ensures
        optimization == OptimizationLevel::Debug ==> r == eval(*e, fuel as nat),
        optimization != OptimizationLevel::Debug ==> r == eval(fold(*e), fuel as nat),
{
    match optimization {
        OptimizationLevel::Debug => eval_with_fuel(e, fuel),
        _ => eval_with_fuel(&fold_constants(e), fuel),
    }
}

/// Every optimization level gives the result of the debug level, on each run
/// of the debug level that does not run out of steps.
pub proof fn lemma_levels_agree(e: Expr, optimization: OptimizationLevel, fuel: nat)
    requires
        eval(e, fuel) != Err::<Expr, EvalError>(EvalError::OutOfFuel),
    ensures
        (if optimization == OptimizationLevel::Debug { eval(e, fuel) } else { eval(fold(e), fuel) })
            == eval(e, fuel),
{
    lemma_fold_preserves_eval(e, fuel);
}

} // verus!

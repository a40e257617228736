use langlang_common::ast::{Ty, PRIM_LOG};
use langlang_common::eval::fold_constants;
use langlang_common::{check_unit, evaluate, run_unit, EvalError, Expr, Loc, OptimizationLevel, PipelineConfig, PurityLevel, TypeError, TypeSystem, UnitError};

const FUEL: u64 = 1000;

fn at(col: u32) -> Loc {
    Loc { start_line: 1, start_column: col, end_line: 1, end_column: col }
}

fn num(v: u64) -> Expr {
    Expr::Int { value: v, loc: at(1) }
}

fn var(i: u64) -> Expr {
    Expr::Var { index: i, loc: at(2) }
}

fn lam(b: Expr) -> Expr {
    Expr::Lam { body: Box::new(b), loc: at(3) }
}

fn app(f: Expr, a: Expr) -> Expr {
    Expr::App { func: Box::new(f), arg: Box::new(a), loc: at(4) }
}

fn add(a: Expr, b: Expr) -> Expr {
    Expr::Add { left: Box::new(a), right: Box::new(b), loc: at(5) }
}

fn dynamic() -> PipelineConfig {
    PipelineConfig {
        source_language: "conf".to_string(),
        type_system: TypeSystem::Dynamic,
        purity_level: PurityLevel::Pure,
        optimization_level: OptimizationLevel::Debug,
    }
}

#[test]
fn dynamic_mode_defers_type_confusion_to_runtime() {
    // let x = 1 in x + true
    let e = Expr::Let {
        bound: Box::new(num(1)),
        body: Box::new(add(var(0), Expr::Bool { value: true, loc: at(9) })),
        loc: at(0),
    };
    assert_eq!(check_unit(&e, &dynamic()), Ok(()));
    assert_eq!(evaluate(&e, OptimizationLevel::Debug, FUEL), Err(EvalError::TypeConfusion { loc: at(5) }));
}

#[test]
fn identity_applied_to_five_is_five() {
    let e = app(lam(var(0)), num(5));
    assert_eq!(check_unit(&e, &dynamic()), Ok(()));
    assert_eq!(evaluate(&e, OptimizationLevel::Debug, FUEL), Ok(num(5)));
}

#[test]
fn let_and_addition() {
    // let x = 2 in (fun y -> y + x) 40
    let e = Expr::Let {
        bound: Box::new(num(2)),
        body: Box::new(app(lam(add(var(0), var(1))), num(40))),
        loc: at(0),
    };
    assert_eq!(evaluate(&e, OptimizationLevel::Release, FUEL), Ok(Expr::Int { value: 42, loc: at(5) }));
}

#[test]
fn addition_wraps() {
    let e = add(num(u64::MAX), num(2));
    assert_eq!(evaluate(&e, OptimizationLevel::Debug, FUEL), Ok(Expr::Int { value: 1, loc: at(5) }));
}

#[test]
fn applying_a_number_is_not_a_function() {
    let e = app(num(3), num(4));
    assert_eq!(evaluate(&e, OptimizationLevel::Debug, FUEL), Err(EvalError::ArityMismatch { loc: at(4) }));
}

#[test]
fn conditional_needs_a_boolean() {
    let e = Expr::If { cond: Box::new(num(0)), then_branch: Box::new(num(1)), else_branch: Box::new(num(2)), loc: at(7) };
    assert_eq!(evaluate(&e, OptimizationLevel::Debug, FUEL), Err(EvalError::TypeConfusion { loc: at(7) }));
    let e = Expr::If {
        cond: Box::new(Expr::Bool { value: false, loc: at(8) }),
        then_branch: Box::new(num(1)),
        else_branch: Box::new(num(2)),
        loc: at(7),
    };
    assert_eq!(evaluate(&e, OptimizationLevel::Debug, FUEL), Ok(num(2)));
}

#[test]
fn open_term_has_unbound_variable() {
    assert_eq!(evaluate(&var(0), OptimizationLevel::Debug, FUEL), Err(EvalError::UnboundVariable { loc: at(2) }));
}

#[test]
fn effect_call_yields_its_argument() {
    let e = Expr::Effect { prim: PRIM_LOG, arg: Box::new(add(num(1), num(2))), loc: at(6) };
    assert_eq!(evaluate(&e, OptimizationLevel::Debug, FUEL), Ok(Expr::Int { value: 3, loc: at(5) }));
    let e = Expr::Effect { prim: PRIM_LOG, arg: Box::new(app(num(1), num(2))), loc: at(6) };
    assert_eq!(evaluate(&e, OptimizationLevel::Debug, FUEL), Err(EvalError::ArityMismatch { loc: at(4) }));
}

#[test]
fn divergent_term_runs_out_of_fuel() {
    let w = || lam(app(var(0), var(0)));
    let e = app(w(), w());
    assert_eq!(evaluate(&e, OptimizationLevel::Debug, FUEL), Err(EvalError::OutOfFuel));
    assert_eq!(evaluate(&num(1), OptimizationLevel::Debug, 0), Err(EvalError::OutOfFuel));
}

#[test]
fn levels_agree_on_a_pure_term() {
    let e = add(add(num(1), num(2)), app(lam(var(0)), num(3)));
    let d = evaluate(&e, OptimizationLevel::Debug, FUEL);
    assert_eq!(d, Ok(Expr::Int { value: 6, loc: at(5) }));
    assert_eq!(evaluate(&e, OptimizationLevel::Release, FUEL), d);
    assert_eq!(evaluate(&e, OptimizationLevel::Aggressive, FUEL), d);
}

#[test]
fn folding_replaces_literal_sums() {
    assert_eq!(fold_constants(&add(num(1), num(2))), Expr::Int { value: 3, loc: at(5) });
    assert_eq!(
        fold_constants(&add(add(num(1), num(2)), num(4))),
        Expr::Int { value: 7, loc: at(5) }
    );
}

#[test]
fn folding_leaves_binders_alone_and_wraps() {
    assert_eq!(fold_constants(&lam(add(num(1), num(2)))), lam(add(num(1), num(2))));
    assert_eq!(fold_constants(&add(num(u64::MAX), num(1))), Expr::Int { value: 0, loc: at(5) });
    assert_eq!(fold_constants(&add(var(0), num(1))), add(var(0), num(1)));
}

#[test]
fn folding_reaches_through_application_arguments() {
    let e = app(lam(var(0)), add(num(20), num(22)));
    assert_eq!(fold_constants(&e), app(lam(var(0)), Expr::Int { value: 42, loc: at(5) }));
}

#[test]
fn run_unit_reports_rejection_before_evaluation() {
    let e = Expr::Effect { prim: PRIM_LOG, arg: Box::new(num(1)), loc: at(6) };
    assert_eq!(
        run_unit(&e, &dynamic(), FUEL),
        Err(UnitError::Check(TypeError::EffectNotPermitted { prim: PRIM_LOG, loc: at(6) }))
    );
}

#[test]
fn run_unit_evaluates_accepted_units() {
    let e = app(lam(add(var(0), num(1))), num(41));
    assert_eq!(run_unit(&e, &dynamic(), FUEL), Ok(Expr::Int { value: 42, loc: at(5) }));
    let mut c = dynamic();
    c.purity_level = PurityLevel::Unrestricted;
    c.optimization_level = OptimizationLevel::Aggressive;
    assert_eq!(run_unit(&e, &c, FUEL), Ok(Expr::Int { value: 42, loc: at(5) }));
    assert_eq!(run_unit(&e, &c, 1), Err(UnitError::Eval(EvalError::OutOfFuel)));
}

#[test]
fn gradual_boundary_fails_at_runtime() {
    // (fun x -> (x : Int) + 1) true
    let f = lam(add(Expr::Annot { expr: Box::new(var(0)), ty: Ty::Int, loc: at(11) }, num(1)));
    let e = app(f, Expr::Bool { value: true, loc: at(12) });
    let mut c = dynamic();
    c.type_system = TypeSystem::Gradual;
    assert_eq!(check_unit(&e, &c), Ok(()));
    assert_eq!(evaluate(&e, OptimizationLevel::Debug, FUEL), Err(EvalError::TypeConfusion { loc: at(11) }));
    assert_eq!(run_unit(&e, &c, FUEL), Err(UnitError::Eval(EvalError::TypeConfusion { loc: at(11) })));
}

#[test]
fn annotation_passes_matching_values() {
    let e = Expr::Annot { expr: Box::new(add(num(2), num(3))), ty: Ty::Int, loc: at(11) };
    assert_eq!(evaluate(&e, OptimizationLevel::Debug, FUEL), Ok(Expr::Int { value: 5, loc: at(5) }));
    let e = Expr::Annot { expr: Box::new(lam(var(0))), ty: Ty::Fun, loc: at(11) };
    assert_eq!(evaluate(&e, OptimizationLevel::Release, FUEL), Ok(lam(var(0))));
    let e = Expr::Annot { expr: Box::new(num(1)), ty: Ty::Bool, loc: at(11) };
    assert_eq!(evaluate(&e, OptimizationLevel::Release, FUEL), Err(EvalError::TypeConfusion { loc: at(11) }));
}

fn inferred() -> PipelineConfig {
    let mut c = dynamic();
    c.type_system = TypeSystem::Inferred;
    c
}

#[test]
fn inferred_mode_rejects_let_bound_kind_conflict() {
    // let x = true in x + 1
    let e = Expr::Let {
        bound: Box::new(Expr::Bool { value: true, loc: at(8) }),
        body: Box::new(add(var(0), num(1))),
        loc: at(0),
    };
    assert_eq!(
        check_unit(&e, &inferred()),
        Err(TypeError::KindConflict { expected: Ty::Int, found: Ty::Bool, loc: at(2) })
    );
    let mut c = inferred();
    c.type_system = TypeSystem::Dependent;
    assert_eq!(check_unit(&e, &c), Err(TypeError::KindConflict { expected: Ty::Int, found: Ty::Bool, loc: at(2) }));
    assert_eq!(check_unit(&e, &dynamic()), Ok(()));
    assert_eq!(evaluate(&e, OptimizationLevel::Debug, FUEL), Err(EvalError::TypeConfusion { loc: at(5) }));
}

#[test]
fn inferred_mode_rejects_operand_of_unknown_kind() {
    // fun x -> x + 1: the parameter's kind is not established
    let e = lam(add(var(0), num(1)));
    assert_eq!(check_unit(&e, &inferred()), Err(TypeError::KindUnknown { expected: Ty::Int, loc: at(2) }));
    // (fun x -> x) 5 + 1: an application's kind is not established
    let e = add(app(lam(var(0)), num(5)), num(1));
    assert_eq!(check_unit(&e, &inferred()), Err(TypeError::KindUnknown { expected: Ty::Int, loc: at(4) }));
}

#[test]
fn inferred_mode_accepts_and_evaluates_identity_application() {
    let e = app(lam(var(0)), num(5));
    assert_eq!(check_unit(&e, &inferred()), Ok(()));
    assert_eq!(run_unit(&e, &inferred(), FUEL), Ok(num(5)));
    // let x = 2 in if true then x + 40 else 0
    let e = Expr::Let {
        bound: Box::new(num(2)),
        body: Box::new(Expr::If {
            cond: Box::new(Expr::Bool { value: true, loc: at(9) }),
            then_branch: Box::new(add(var(0), num(40))),
            else_branch: Box::new(num(0)),
            loc: at(7),
        }),
        loc: at(0),
    };
    assert_eq!(check_unit(&e, &inferred()), Ok(()));
    assert_eq!(run_unit(&e, &inferred(), FUEL), Ok(Expr::Int { value: 42, loc: at(5) }));
}

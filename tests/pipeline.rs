use langlang_common::ast::{Ty, PRIM_LOG, PRIM_RANDOM, PRIM_READ_CONFIG, PRIM_WRITE_FILE};
use langlang_common::{
    check_unit, deserialize_ast, serialize_ast, Expr, Loc, MessageFormatError, OptimizationLevel,
    PipelineConfig, PurityLevel, SourceSpan, TypeError, TypeSystem,
};

fn loc(line: u32, col: u32) -> Loc {
    Loc { start_line: line, start_column: col, end_line: line, end_column: col + 1 }
}

fn int_lit(v: u64) -> Expr {
    Expr::Int { value: v, loc: loc(1, 1) }
}

fn var(i: u64) -> Expr {
    Expr::Var { index: i, loc: loc(1, 5) }
}

fn lam(b: Expr) -> Expr {
    Expr::Lam { body: Box::new(b), loc: loc(1, 0) }
}

fn effect(prim: u64, arg: Expr) -> Expr {
    Expr::Effect { prim, arg: Box::new(arg), loc: loc(3, 7) }
}

fn config(purity: PurityLevel) -> PipelineConfig {
    PipelineConfig {
        source_language: "conf".to_string(),
        type_system: TypeSystem::Dynamic,
        purity_level: purity,
        optimization_level: OptimizationLevel::Debug,
    }
}

fn sample() -> Expr {
    // let x = 1 in if true then (fun y -> y + x) 2 else log x
    Expr::Let {
        bound: Box::new(int_lit(1)),
        body: Box::new(Expr::If {
            cond: Box::new(Expr::Bool { value: true, loc: loc(2, 4) }),
            then_branch: Box::new(Expr::App {
                func: Box::new(lam(Expr::Add {
                    left: Box::new(var(0)),
                    right: Box::new(var(1)),
                    loc: loc(2, 9),
                })),
                arg: Box::new(int_lit(2)),
                loc: loc(2, 2),
            }),
            else_branch: Box::new(effect(PRIM_LOG, var(0))),
            loc: loc(2, 1),
        }),
        loc: loc(1, 1),
    }
}

#[test]
fn round_trip_sample_tree() {
    let e = sample();
    let words = serialize_ast(&e);
    assert_eq!(deserialize_ast(&words), Ok(sample()));
}

#[test]
fn round_trip_leaves_keep_spans() {
    for e in [int_lit(u64::MAX), Expr::Bool { value: false, loc: loc(u32::MAX, 0) }, var(7)] {
        let words = serialize_ast(&e);
        assert_eq!(deserialize_ast(&words).unwrap(), e);
    }
}

#[test]
fn int_encoding_is_exact() {
    let words = serialize_ast(&int_lit(42));
    assert_eq!(words, vec![0, 1, 1, 1, 2, 42]);
}

#[test]
fn lam_encoding_is_exact() {
    let words = serialize_ast(&lam(var(0)));
    assert_eq!(words, vec![3, 1, 0, 1, 1, 2, 1, 5, 1, 6, 0]);
}

#[test]
fn empty_message_is_truncated() {
    assert_eq!(deserialize_ast(&vec![]), Err(MessageFormatError::Truncated));
}

#[test]
fn child_missing_is_truncated() {
    let mut words = serialize_ast(&lam(var(0)));
    words.pop();
    assert_eq!(deserialize_ast(&words), Err(MessageFormatError::Truncated));
}

#[test]
fn unknown_tag_is_unsupported() {
    assert_eq!(
        deserialize_ast(&vec![10, 1, 1, 1, 1, 0]),
        Err(MessageFormatError::UnsupportedVariant { tag: 10 })
    );
}

#[test]
fn oversized_position_is_out_of_range() {
    assert_eq!(
        deserialize_ast(&vec![0, 1 << 32, 1, 1, 1, 0]),
        Err(MessageFormatError::FieldOutOfRange)
    );
}

#[test]
fn bool_word_above_one_is_out_of_range() {
    assert_eq!(deserialize_ast(&vec![1, 1, 1, 1, 1, 2]), Err(MessageFormatError::FieldOutOfRange));
}

#[test]
fn extra_words_are_trailing() {
    let mut words = serialize_ast(&int_lit(3));
    words.push(0);
    assert_eq!(deserialize_ast(&words), Err(MessageFormatError::TrailingWords));
}

#[test]
fn closed_pure_unit_checks_under_every_level() {
    let e = lam(Expr::Add { left: Box::new(var(0)), right: Box::new(int_lit(1)), loc: loc(1, 3) });
    for p in [PurityLevel::Pure, PurityLevel::Sandbox, PurityLevel::Unrestricted] {
        assert_eq!(check_unit(&e, &config(p)), Ok(()));
    }
}

#[test]
fn unbound_variable_is_unresolved() {
    let e = lam(var(1));
    assert_eq!(
        check_unit(&e, &config(PurityLevel::Pure)),
        Err(TypeError::UnresolvedReference { index: 1, loc: loc(1, 5) })
    );
}

#[test]
fn let_body_sees_its_binder() {
    let e = Expr::Let { bound: Box::new(int_lit(1)), body: Box::new(var(0)), loc: loc(1, 1) };
    assert_eq!(check_unit(&e, &config(PurityLevel::Pure)), Ok(()));
    let e = Expr::Let { bound: Box::new(var(0)), body: Box::new(int_lit(1)), loc: loc(1, 1) };
    assert!(matches!(
        check_unit(&e, &config(PurityLevel::Pure)),
        Err(TypeError::UnresolvedReference { index: 0, .. })
    ));
}

#[test]
fn effect_rejected_when_pure_and_accepted_when_unrestricted() {
    let e = effect(PRIM_WRITE_FILE, int_lit(1));
    assert_eq!(
        check_unit(&e, &config(PurityLevel::Pure)),
        Err(TypeError::EffectNotPermitted { prim: PRIM_WRITE_FILE, loc: loc(3, 7) })
    );
    assert_eq!(check_unit(&e, &config(PurityLevel::Unrestricted)), Ok(()));
}

#[test]
fn sandbox_allows_only_its_whitelist() {
    assert_eq!(check_unit(&effect(PRIM_LOG, int_lit(1)), &config(PurityLevel::Sandbox)), Ok(()));
    assert_eq!(check_unit(&effect(PRIM_READ_CONFIG, int_lit(1)), &config(PurityLevel::Sandbox)), Ok(()));
    assert!(matches!(
        check_unit(&effect(PRIM_RANDOM, int_lit(1)), &config(PurityLevel::Sandbox)),
        Err(TypeError::EffectNotPermitted { prim: PRIM_RANDOM, .. })
    ));
}

#[test]
fn effect_error_reported_before_unbound_variable() {
    let e = Expr::App {
        func: Box::new(var(4)),
        arg: Box::new(effect(PRIM_LOG, int_lit(0))),
        loc: loc(1, 1),
    };
    assert!(matches!(
        check_unit(&e, &config(PurityLevel::Pure)),
        Err(TypeError::EffectNotPermitted { prim: PRIM_LOG, .. })
    ));
    assert!(matches!(
        check_unit(&e, &config(PurityLevel::Unrestricted)),
        Err(TypeError::UnresolvedReference { index: 4, .. })
    ));
}

#[test]
fn check_is_repeatable() {
    let e = sample();
    let c = config(PurityLevel::Sandbox);
    assert_eq!(check_unit(&e, &c), check_unit(&e, &c));
    assert_eq!(check_unit(&e, &c), Ok(()));
    let p = config(PurityLevel::Pure);
    assert_eq!(check_unit(&e, &p), check_unit(&e, &p));
}

#[test]
fn default_config_values() {
    let c = PipelineConfig::default();
    assert_eq!(c.source_language, "unknown");
    assert_eq!(c.type_system, TypeSystem::Inferred);
    assert_eq!(c.purity_level, PurityLevel::Sandbox);
    assert_eq!(c.optimization_level, OptimizationLevel::Release);
}

#[test]
fn aggressive_degrades_only_when_unrestricted() {
    let mut c = config(PurityLevel::Unrestricted);
    c.optimization_level = OptimizationLevel::Aggressive;
    assert_eq!(c.effective_optimization(), OptimizationLevel::Release);
    c.purity_level = PurityLevel::Pure;
    assert_eq!(c.effective_optimization(), OptimizationLevel::Aggressive);
    c.optimization_level = OptimizationLevel::Debug;
    assert_eq!(c.effective_optimization(), OptimizationLevel::Debug);
}

#[test]
fn span_new_and_point() {
    let s = SourceSpan::new("a.conf".to_string(), 1, 2, 3, 4);
    assert_eq!((s.start_line, s.start_column, s.end_line, s.end_column), (1, 2, 3, 4));
    assert!(!s.is_point());
    let p = SourceSpan::point("a.conf".to_string(), 5, 6);
    assert_eq!(p, SourceSpan::new("a.conf".to_string(), 5, 6, 5, 6));
    assert!(p.is_point());
}

#[test]
fn round_trip_annotation() {
    for ty in [Ty::Int, Ty::Bool, Ty::Fun] {
        let e = lam(Expr::Annot { expr: Box::new(var(0)), ty, loc: loc(4, 2) });
        assert_eq!(deserialize_ast(&serialize_ast(&e)).unwrap(), e);
    }
}

#[test]
fn annotation_encoding_is_exact() {
    let e = Expr::Annot { expr: Box::new(int_lit(7)), ty: Ty::Bool, loc: loc(2, 3) };
    assert_eq!(serialize_ast(&e), vec![9, 2, 3, 2, 4, 1, 0, 1, 1, 1, 2, 7]);
}

#[test]
fn annotation_kind_above_two_is_out_of_range() {
    assert_eq!(
        deserialize_ast(&vec![9, 1, 1, 1, 1, 3, 0, 1, 1, 1, 1, 0]),
        Err(MessageFormatError::FieldOutOfRange)
    );
}

fn with_system(ts: TypeSystem) -> PipelineConfig {
    let mut c = config(PurityLevel::Pure);
    c.type_system = ts;
    c
}

#[test]
fn literal_kind_conflict_is_static_outside_dynamic_mode() {
    // let x = 1 in x + true: only the literal's kind is known
    let t = Expr::Bool { value: true, loc: loc(1, 9) };
    let e = Expr::Let {
        bound: Box::new(int_lit(1)),
        body: Box::new(Expr::Add { left: Box::new(var(0)), right: Box::new(t), loc: loc(1, 7) }),
        loc: loc(1, 1),
    };
    assert_eq!(check_unit(&e, &with_system(TypeSystem::Dynamic)), Ok(()));
    for ts in [TypeSystem::Inferred, TypeSystem::Gradual, TypeSystem::Dependent] {
        assert_eq!(
            check_unit(&e, &with_system(ts)),
            Err(TypeError::KindConflict { expected: Ty::Int, found: Ty::Bool, loc: loc(1, 9) })
        );
    }
}

#[test]
fn annotation_conflicts_with_literal() {
    let e = Expr::Annot { expr: Box::new(int_lit(5)), ty: Ty::Bool, loc: loc(2, 2) };
    assert_eq!(
        check_unit(&e, &with_system(TypeSystem::Gradual)),
        Err(TypeError::KindConflict { expected: Ty::Bool, found: Ty::Int, loc: loc(1, 1) })
    );
    let e = lam(Expr::Annot { expr: Box::new(var(0)), ty: Ty::Bool, loc: loc(2, 2) });
    assert_eq!(check_unit(&e, &with_system(TypeSystem::Gradual)), Ok(()));
}

#[test]
fn applying_a_literal_and_testing_a_function_conflict() {
    let e = Expr::App { func: Box::new(int_lit(3)), arg: Box::new(int_lit(4)), loc: loc(1, 1) };
    assert_eq!(
        check_unit(&e, &with_system(TypeSystem::Inferred)),
        Err(TypeError::KindConflict { expected: Ty::Fun, found: Ty::Int, loc: loc(1, 1) })
    );
    let e = Expr::If {
        cond: Box::new(lam(var(0))),
        then_branch: Box::new(int_lit(1)),
        else_branch: Box::new(int_lit(2)),
        loc: loc(1, 1),
    };
    assert_eq!(
        check_unit(&e, &with_system(TypeSystem::Inferred)),
        Err(TypeError::KindConflict { expected: Ty::Bool, found: Ty::Fun, loc: loc(1, 0) })
    );
}

#[test]
fn scope_error_reported_before_kind_conflict() {
    let e = Expr::Add { left: Box::new(var(3)), right: Box::new(lam(var(0))), loc: loc(1, 1) };
    assert!(matches!(
        check_unit(&e, &with_system(TypeSystem::Gradual)),
        Err(TypeError::UnresolvedReference { index: 3, .. })
    ));
}

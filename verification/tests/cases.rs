use dispatch_bench::cases::{
    compile_one_case, gen_one_case, run_one_case, step_failure, write_one_case, Operation,
    Procedure, Step,
};
use dispatch_bench::config::{
    verify_case, CaseConfig, CaseError, CompileOpts, DispatchStrategy, Emit, GenOpts,
};

fn case(num_types: u32, num_fns: u32, num_calls: u32) -> CaseConfig {
    CaseConfig { num_types, num_fns, num_calls }
}

fn drive(mut procedure: Procedure, fail_at: Option<usize>) -> (Vec<Step>, Procedure) {
    let mut steps = Vec::new();
    while let Some(step) = procedure.next_step() {
        let ok = Some(steps.len()) != fail_at;
        steps.push(step);
        procedure.record(ok);
    }
    (steps, procedure)
}

const STATIC: DispatchStrategy = DispatchStrategy::Static;
const DYNAMIC: DispatchStrategy = DispatchStrategy::Dynamic;

#[test]
fn verify_case_accepts_positive_axes() {
    assert_eq!(verify_case(&case(1, 1, 1)), Ok(()));
    assert_eq!(verify_case(&case(u32::MAX, 7, 3)), Ok(()));
}

#[test]
fn verify_case_rejects_any_zero_axis() {
    for config in [case(0, 1, 1), case(1, 0, 1), case(1, 1, 0), case(0, 0, 0), case(0, 5, 0)] {
        assert_eq!(verify_case(&config), Err(CaseError::Configuration { config }));
    }
}

#[test]
fn build_of_a_case_with_a_zero_axis_is_refused() {
    let opts = CompileOpts { emit_asm: true, symbols: true, opt_level: 3 };
    for config in [case(0, 1, 1), case(1, 0, 1), case(1, 1, 0)] {
        assert_eq!(compile_one_case(&config, &opts), Err(CaseError::Configuration { config }));
    }
}

#[test]
fn run_of_a_case_with_a_zero_axis_is_refused() {
    for config in [case(0, 1, 1), case(1, 0, 1), case(1, 1, 0)] {
        assert_eq!(run_one_case(&config), Err(CaseError::Configuration { config }));
    }
}

#[test]
fn gen_one_case_gives_both_variants() {
    let config = case(2, 3, 1);
    let opts = GenOpts { no_inline: false, no_dedup: true, predictable: false };
    let generated = gen_one_case(&config, &opts);
    assert_eq!(generated.config, config);
    assert_eq!(generated.static_name, "static-0002-0003-0001.rs");
    assert_eq!(generated.dynamic_name, "dynamic-0002-0003-0001.rs");
    assert!(generated.static_source.contains("fn do_io_f2<T: Io>(v: &T) {"));
    assert!(generated.dynamic_source.contains("fn do_io_f2(v: &dyn Io) {"));
    assert!(!generated.static_source.contains("dyn Io"));
    assert!(!generated.dynamic_source.contains("<T: Io>"));
}

#[test]
fn gen_one_case_accepts_a_zero_axis() {
    let opts = GenOpts { no_inline: false, no_dedup: false, predictable: false };
    let generated = gen_one_case(&case(0, 4, 4), &opts);
    assert_eq!(generated.static_name, "static-0000-0004-0004.rs");
    assert!(generated.static_source.ends_with("fn main() {\n}\n"));
}

#[test]
fn writing_takes_static_then_dynamic() {
    let opts = GenOpts { no_inline: true, no_dedup: false, predictable: true };
    let procedure = write_one_case(&case(0, 3, 1), &opts);
    assert_eq!(
        procedure,
        Procedure {
            config: case(0, 3, 1),
            operation: Operation::Generate { opts },
            position: 0,
            failure: None
        }
    );
    let (steps, ended) = drive(procedure, None);
    assert_eq!(steps, vec![Step::Write { strategy: STATIC }, Step::Write { strategy: DYNAMIC }]);
    assert_eq!(ended.outcome(), Some(Ok(())));
}

#[test]
fn first_failure_ends_the_writing() {
    let opts = GenOpts { no_inline: false, no_dedup: false, predictable: false };
    let config = case(2, 2, 2);
    let (steps, ended) = drive(write_one_case(&config, &opts), Some(0));
    assert_eq!(steps, vec![Step::Write { strategy: STATIC }]);
    assert_eq!(ended.outcome(), Some(Err(CaseError::Io { config, strategy: STATIC })));
    let (steps, ended) = drive(write_one_case(&config, &opts), Some(1));
    assert_eq!(steps.len(), 2);
    assert_eq!(ended.outcome(), Some(Err(CaseError::Io { config, strategy: DYNAMIC })));
}

#[test]
fn plain_build_compiles_then_measures() {
    let opts = CompileOpts { emit_asm: false, symbols: false, opt_level: 0 };
    let procedure = compile_one_case(&case(1, 1, 1), &opts).unwrap();
    assert_eq!(
        procedure,
        Procedure {
            config: case(1, 1, 1),
            operation: Operation::Build { opts },
            position: 0,
            failure: None
        }
    );
    assert_eq!(procedure.outcome(), None);
    let (steps, ended) = drive(procedure, None);
    assert_eq!(
        steps,
        vec![
            Step::Compile { strategy: STATIC, emit: Emit::Link },
            Step::Compile { strategy: DYNAMIC, emit: Emit::Link },
            Step::Measure { strategy: STATIC },
            Step::Measure { strategy: DYNAMIC },
        ]
    );
    assert_eq!(ended.position, 4);
    assert_eq!(ended.outcome(), Some(Ok(())));
}

#[test]
fn full_build_adds_listings_and_symbol_counts() {
    let opts = CompileOpts { emit_asm: true, symbols: true, opt_level: 2 };
    let (steps, ended) = drive(compile_one_case(&case(2, 2, 2), &opts).unwrap(), None);
    assert_eq!(
        steps,
        vec![
            Step::Compile { strategy: STATIC, emit: Emit::Link },
            Step::Compile { strategy: DYNAMIC, emit: Emit::Link },
            Step::Measure { strategy: STATIC },
            Step::Measure { strategy: DYNAMIC },
            Step::Compile { strategy: STATIC, emit: Emit::Asm },
            Step::Compile { strategy: DYNAMIC, emit: Emit::Asm },
            Step::Symbols { strategy: STATIC },
            Step::Symbols { strategy: DYNAMIC },
        ]
    );
    assert_eq!(ended.outcome(), Some(Ok(())));
}

#[test]
fn build_with_symbol_counts_only() {
    let opts = CompileOpts { emit_asm: false, symbols: true, opt_level: 1 };
    let (steps, _) = drive(compile_one_case(&case(2, 2, 2), &opts).unwrap(), None);
    assert_eq!(steps.len(), 6);
    assert_eq!(steps[4], Step::Symbols { strategy: STATIC });
    assert_eq!(steps[5], Step::Symbols { strategy: DYNAMIC });
}

#[test]
fn build_with_listings_only() {
    let opts = CompileOpts { emit_asm: true, symbols: false, opt_level: 1 };
    let (steps, _) = drive(compile_one_case(&case(2, 2, 2), &opts).unwrap(), None);
    assert_eq!(steps.len(), 6);
    assert_eq!(steps[4], Step::Compile { strategy: STATIC, emit: Emit::Asm });
    assert_eq!(steps[5], Step::Compile { strategy: DYNAMIC, emit: Emit::Asm });
}

#[test]
fn run_executes_static_then_dynamic() {
    let (steps, ended) = drive(run_one_case(&case(3, 1, 2)).unwrap(), None);
    assert_eq!(steps, vec![Step::Execute { strategy: STATIC }, Step::Execute { strategy: DYNAMIC }]);
    assert_eq!(ended.outcome(), Some(Ok(())));
}

#[test]
fn first_failure_ends_the_build() {
    let config = case(2, 2, 2);
    let opts = CompileOpts { emit_asm: true, symbols: true, opt_level: 0 };
    let expected = [
        CaseError::Build { config, strategy: STATIC },
        CaseError::Build { config, strategy: DYNAMIC },
        CaseError::Io { config, strategy: STATIC },
        CaseError::Io { config, strategy: DYNAMIC },
        CaseError::Build { config, strategy: STATIC },
        CaseError::Build { config, strategy: DYNAMIC },
        CaseError::Tooling { config, strategy: STATIC },
        CaseError::Tooling { config, strategy: DYNAMIC },
    ];
    for (at, error) in expected.iter().enumerate() {
        let (steps, ended) = drive(compile_one_case(&config, &opts).unwrap(), Some(at));
        assert_eq!(steps.len(), at + 1);
        assert_eq!(ended.position, at);
        assert_eq!(ended.failure, Some(*error));
        assert_eq!(ended.next_step(), None);
        assert_eq!(ended.outcome(), Some(Err(*error)));
    }
}

#[test]
fn first_failure_ends_the_run() {
    let config = case(1, 2, 3);
    let (steps, ended) = drive(run_one_case(&config).unwrap(), Some(0));
    assert_eq!(steps, vec![Step::Execute { strategy: STATIC }]);
    assert_eq!(ended.outcome(), Some(Err(CaseError::Run { config, strategy: STATIC })));
    let (steps, ended) = drive(run_one_case(&config).unwrap(), Some(1));
    assert_eq!(steps.len(), 2);
    assert_eq!(ended.outcome(), Some(Err(CaseError::Run { config, strategy: DYNAMIC })));
}

#[test]
fn reports_after_the_end_change_nothing() {
    let mut failed = run_one_case(&case(1, 1, 1)).unwrap();
    failed.record(false);
    let before = failed;
    failed.record(true);
    failed.record(false);
    assert_eq!(failed, before);

    let (_, mut done) = drive(run_one_case(&case(1, 1, 1)).unwrap(), None);
    let before = done;
    done.record(false);
    assert_eq!(done, before);
    assert_eq!(done.outcome(), Some(Ok(())));
}

#[test]
fn step_failure_names_the_variant_and_the_case() {
    let config = case(4, 5, 6);
    assert_eq!(
        step_failure(Step::Compile { strategy: DYNAMIC, emit: Emit::Asm }, &config),
        CaseError::Build { config, strategy: DYNAMIC }
    );
    assert_eq!(
        step_failure(Step::Measure { strategy: STATIC }, &config),
        CaseError::Io { config, strategy: STATIC }
    );
    assert_eq!(
        step_failure(Step::Write { strategy: DYNAMIC }, &config),
        CaseError::Io { config, strategy: DYNAMIC }
    );
    assert_eq!(
        step_failure(Step::Symbols { strategy: DYNAMIC }, &config),
        CaseError::Tooling { config, strategy: DYNAMIC }
    );
    assert_eq!(
        step_failure(Step::Execute { strategy: STATIC }, &config),
        CaseError::Run { config, strategy: STATIC }
    );
}

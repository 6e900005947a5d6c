use dispatch_bench::config::{CaseConfig, CaseError, DispatchStrategy};
use dispatch_bench::report::{measurement_line, metric_label, prereport, Metric};

fn case(num_types: u32, num_fns: u32, num_calls: u32) -> CaseConfig {
    CaseConfig { num_types, num_fns, num_calls }
}

#[test]
fn prereport_names_the_action_and_the_case() {
    assert_eq!(prereport("generating", &case(2, 3, 4)), "generating case: 2 types / 3 fns / 4 calls");
    assert_eq!(prereport("compiling", &case(10, 200, 3000)), "compiling case: 10 types / 200 fns / 3000 calls");
    assert_eq!(prereport("running", &case(0, 0, 0)), "running case: 0 types / 0 fns / 0 calls");
}

#[test]
fn labels_of_a_build_line_up() {
    let labels = [
        (DispatchStrategy::Static, Metric::CompileTime, "static-compile-time  : "),
        (DispatchStrategy::Dynamic, Metric::CompileTime, "dynamic-compile-time : "),
        (DispatchStrategy::Static, Metric::BinSize, "static-bin-size      : "),
        (DispatchStrategy::Dynamic, Metric::BinSize, "dynamic-bin-size     : "),
        (DispatchStrategy::Static, Metric::MethodCount, "static-method-count  : "),
        (DispatchStrategy::Dynamic, Metric::MethodCount, "dynamic-method-count : "),
        (DispatchStrategy::Static, Metric::FnCount, "static-fn-count      : "),
        (DispatchStrategy::Dynamic, Metric::FnCount, "dynamic-fn-count     : "),
    ];
    for (strategy, metric, expected) in labels {
        assert_eq!(metric_label(strategy, metric), expected);
        assert_eq!(expected.len(), 23);
    }
}

#[test]
fn labels_of_a_run_line_up() {
    assert_eq!(metric_label(DispatchStrategy::Static, Metric::RunTime), "static-run-time : ");
    assert_eq!(metric_label(DispatchStrategy::Dynamic, Metric::RunTime), "dynamic-run-time: ");
}

#[test]
fn messages_name_the_failure_the_variant_and_the_case() {
    let config = case(3, 2, 1);
    assert_eq!(
        CaseError::Build { config, strategy: DispatchStrategy::Static }.message(),
        "rustc failed (static, 3 types / 2 fns / 1 calls)"
    );
    assert_eq!(
        CaseError::Run { config, strategy: DispatchStrategy::Dynamic }.message(),
        "running case failed (dynamic, 3 types / 2 fns / 1 calls)"
    );
    assert_eq!(
        CaseError::Tooling { config, strategy: DispatchStrategy::Dynamic }.message(),
        "running nm failed (dynamic, 3 types / 2 fns / 1 calls)"
    );
    assert_eq!(
        CaseError::Io { config, strategy: DispatchStrategy::Static }.message(),
        "reading or writing a file failed (static, 3 types / 2 fns / 1 calls)"
    );
    assert_eq!(
        CaseError::Configuration { config: case(0, 2, 1) }.message(),
        "a case with an empty axis is never built or run (0 types / 2 fns / 1 calls)"
    );
}

#[test]
fn measurement_lines_put_the_number_behind_the_label() {
    assert_eq!(
        measurement_line(DispatchStrategy::Static, Metric::BinSize, 3_801_544),
        "static-bin-size      : 3801544"
    );
    assert_eq!(
        measurement_line(DispatchStrategy::Dynamic, Metric::MethodCount, 0),
        "dynamic-method-count : 0"
    );
    assert_eq!(
        measurement_line(DispatchStrategy::Dynamic, Metric::FnCount, u64::MAX),
        "dynamic-fn-count     : 18446744073709551615"
    );
}

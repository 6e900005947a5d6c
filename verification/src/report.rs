//! What is printed about a case: the line that announces an operation, the
//! labels of the measurements, and the diagnostics of the errors.

use vstd::prelude::*;
use crate::config::{CaseConfig, CaseError, DispatchStrategy};
use crate::naming::strategy_name;
use crate::text::{decimal, push_decimal};

verus! {

/// What is measured of one variant of a case.
#[derive(Clone, Copy, Debug, PartialEq, Eq, Structural)]
pub enum Metric {
    /// How long the compiler took to link the binary.
    CompileTime,
    /// The size of the binary in bytes.
    BinSize,
    /// How many symbols name a method of the shared operation.
    MethodCount,
    /// How many symbols name a wrapper function.
    FnCount,
    /// How long the binary ran.
    RunTime,
}

/// The three numbers of a case in words.
pub open spec fn case_text(config: CaseConfig) -> Seq<char> {
    decimal(config.num_types as nat) + " types / "@ + decimal(config.num_fns as nat) + " fns / "@
        + decimal(config.num_calls as nat) + " calls"@
}

/// The line that announces `action` on `config`.
pub open spec fn prereport_text(action: Seq<char>, config: CaseConfig) -> Seq<char> {
    action + " case: "@ + case_text(config)
}

/// What a measurement of `metric` on the `strategy` variant is printed
/// behind. The labels of a build line up, and so do those of a run.
pub open spec fn label_text(strategy: DispatchStrategy, metric: Metric) -> Seq<char> {
    match (strategy, metric) {
        (DispatchStrategy::Static, Metric::CompileTime) => "static-compile-time  : "@,
        (DispatchStrategy::Dynamic, Metric::CompileTime) => "dynamic-compile-time : "@,
        (DispatchStrategy::Static, Metric::BinSize) => "static-bin-size      : "@,
        (DispatchStrategy::Dynamic, Metric::BinSize) => "dynamic-bin-size     : "@,
        (DispatchStrategy::Static, Metric::MethodCount) => "static-method-count  : "@,
        (DispatchStrategy::Dynamic, Metric::MethodCount) => "dynamic-method-count : "@,
        (DispatchStrategy::Static, Metric::FnCount) => "static-fn-count      : "@,
        (DispatchStrategy::Dynamic, Metric::FnCount) => "dynamic-fn-count     : "@,
        (DispatchStrategy::Static, Metric::RunTime) => "static-run-time : "@,
        (DispatchStrategy::Dynamic, Metric::RunTime) => "dynamic-run-time: "@,
    }
}

/// The line that reports that `metric` of the `strategy` variant was
/// measured as the whole number `value`.
pub open spec fn measurement_text(
    strategy: DispatchStrategy,
    metric: Metric,
    value: nat,
) -> Seq<char> {
    label_text(strategy, metric) + decimal(value)
}

/// What went wrong, without the case.
pub open spec fn failure_text(error: CaseError) -> Seq<char> {
    match error {
        CaseError::Configuration { .. } => "a case with an empty axis is never built or run"@,
        CaseError::Io { .. } => "reading or writing a file failed"@,
        CaseError::Build { .. } => "rustc failed"@,
        CaseError::Run { .. } => "running case failed"@,
        CaseError::Tooling { .. } => "running nm failed"@,
    }
}

/// The variant that failed and the case, in words. An error of the
/// configuration belongs to no variant.
pub open spec fn culprit_text(error: CaseError) -> Seq<char> {
    match error {
        CaseError::Configuration { config } => case_text(config),
        CaseError::Io { config, strategy } => strategy_name(strategy) + ", "@ + case_text(config),
        CaseError::Build { config, strategy } => strategy_name(strategy) + ", "@ + case_text(
            config,
        ),
        CaseError::Run { config, strategy } => strategy_name(strategy) + ", "@ + case_text(config),
        CaseError::Tooling { config, strategy } => strategy_name(strategy) + ", "@ + case_text(
            config,
        ),
    }
}

/// The diagnostic of `error`: what went wrong, and in brackets the variant
/// and the case that it went wrong for.
pub open spec fn message_text(error: CaseError) -> Seq<char> {
    failure_text(error) + " ("@ + culprit_text(error) + ")"@
}

/// Appends the three numbers of `config` in words to `buf`.
fn push_case(buf: &mut String, config: &CaseConfig)
    ensures
        final(buf)@ == old(buf)@ + case_text(*config),
{
    push_decimal(buf, config.num_types as u64);
    buf.append(" types / ");
    push_decimal(buf, config.num_fns as u64);
    buf.append(" fns / ");
    push_decimal(buf, config.num_calls as u64);
    buf.append(" calls");
}

/// The line that announces `action` on `config`.
pub fn prereport(action: &str, config: &CaseConfig) -> (line: String)
    ensures
        line@ == prereport_text(action@, *config),
{
    let mut line = String::new();
    line.append(action);
    line.append(" case: ");
    push_case(&mut line, config);
    line
}

/// What a measurement of `metric` on the `strategy` variant is printed
/// behind.
pub fn metric_label(strategy: DispatchStrategy, metric: Metric) -> (label: &'static str)
    ensures
        label@ == label_text(strategy, metric),
{
    match (strategy, metric) {
        (DispatchStrategy::Static, Metric::CompileTime) => "static-compile-time  : ",
        (DispatchStrategy::Dynamic, Metric::CompileTime) => "dynamic-compile-time : ",
        (DispatchStrategy::Static, Metric::BinSize) => "static-bin-size      : ",
        (DispatchStrategy::Dynamic, Metric::BinSize) => "dynamic-bin-size     : ",
        (DispatchStrategy::Static, Metric::MethodCount) => "static-method-count  : ",
        (DispatchStrategy::Dynamic, Metric::MethodCount) => "dynamic-method-count : ",
        (DispatchStrategy::Static, Metric::FnCount) => "static-fn-count      : ",
        (DispatchStrategy::Dynamic, Metric::FnCount) => "dynamic-fn-count     : ",
        (DispatchStrategy::Static, Metric::RunTime) => "static-run-time : ",
        (DispatchStrategy::Dynamic, Metric::RunTime) => "dynamic-run-time: ",
    }
}

/// The line that reports that `metric` of the `strategy` variant was
/// measured as `value`: a size in bytes or a count of symbols.
pub fn measurement_line(strategy: DispatchStrategy, metric: Metric, value: u64) -> (line: String)
    ensures
        line@ == measurement_text(strategy, metric, value as nat),
{
    let mut line = String::new();
    line.append(metric_label(strategy, metric));
    push_decimal(&mut line, value);
    line
}

impl CaseError {
    /// The diagnostic of this error. It names what went wrong, the variant
    /// and the case.
    pub fn message(&self) -> (text: String)
        ensures
            text@ == message_text(*self),
    {
        let mut text = String::new();
        match self {
            CaseError::Configuration { config } => {
                text.append("a case with an empty axis is never built or run");
                text.append(" (");
                push_case(&mut text, config);
            },
            CaseError::Io { config, strategy } => {
                text.append("reading or writing a file failed");
                text.append(" (");
                text.append(strategy.name());
                text.append(", ");
                push_case(&mut text, config);
            },
            CaseError::Build { config, strategy } => {
                text.append("rustc failed");
                text.append(" (");
                text.append(strategy.name());
                text.append(", ");
                push_case(&mut text, config);
            },
            CaseError::Run { config, strategy } => {
                text.append("running case failed");
                text.append(" (");
                text.append(strategy.name());
                text.append(", ");
                push_case(&mut text, config);
            },
            CaseError::Tooling { config, strategy } => {
                text.append("running nm failed");
                text.append(" (");
                text.append(strategy.name());
                text.append(", ");
                push_case(&mut text, config);
            },
        }
        text.append(")");
        text
    }
}

} // verus!

//! The operations on a single case: generating its two programs, and the
//! procedures by which they are written to disk, built and run.
//!
//! A procedure is a short list of steps. The library says which step comes
//! next; whoever drives it performs the step and reports whether it went
//! through. The first step that does not go through ends the procedure with
//! the error that belongs to it.

use vstd::prelude::*;
use crate::config::{
    CaseConfig, CaseError, CompileOpts, DispatchStrategy, Emit, GenOpts, verify_case,
};
use crate::naming::{artifact_name, gen_src_paths, source_ext};
use crate::program::source_text;
use crate::synth::{gen_dynamic, gen_static};

verus! {

/// The two programs of one case, each with the name of its source file.
#[derive(Debug)]
pub struct GeneratedCase {
    pub config: CaseConfig,
    pub static_name: String,
    pub static_source: String,
    pub dynamic_name: String,
    pub dynamic_source: String,
}

impl GeneratedCase {
    /// Is this the matched pair of programs of `config` under `opts`?
    pub open spec fn is_pair_of(self, config: CaseConfig, opts: GenOpts) -> bool {
        &&& self.config == config
        &&& self.static_name@ == artifact_name(DispatchStrategy::Static, config, source_ext())
        &&& self.static_source@ == source_text(config, DispatchStrategy::Static, opts)
        &&& self.dynamic_name@ == artifact_name(DispatchStrategy::Dynamic, config, source_ext())
        &&& self.dynamic_source@ == source_text(config, DispatchStrategy::Dynamic, opts)
    }
}

/// Generates both variants of `config`. Any case can be generated, also
/// one with an axis that is zero.
pub fn gen_one_case(config: &CaseConfig, opts: &GenOpts) -> (case: GeneratedCase)
    ensures
        case.is_pair_of(*config, *opts),
{
    let (static_name, dynamic_name) = gen_src_paths(config);
    let static_source = gen_static(config, opts);
    let dynamic_source = gen_dynamic(config, opts);
    GeneratedCase { config: *config, static_name, static_source, dynamic_name, dynamic_source }
}

/// One thing to do with one variant of a case.
#[derive(Clone, Copy, Debug, PartialEq, Eq, Structural)]
pub enum Step {
    /// Write the variant's program to its source file.
    Write { strategy: DispatchStrategy },
    /// Run the compiler on the variant's source file.
    Compile { strategy: DispatchStrategy, emit: Emit },
    /// Read the size of the variant's binary.
    Measure { strategy: DispatchStrategy },
    /// List the symbols of the variant's binary and count them.
    Symbols { strategy: DispatchStrategy },
    /// Run the variant's binary.
    Execute { strategy: DispatchStrategy },
}

/// What a procedure is for.
#[derive(Clone, Copy, Debug, PartialEq, Eq, Structural)]
pub enum Operation {
    /// Writing both programs to their source files.
    Generate { opts: GenOpts },
    /// Compiling both programs and measuring the binaries.
    Build { opts: CompileOpts },
    /// Running both binaries.
    Run,
}

/// The steps that write a case: the static program, then the dynamic one.
pub open spec fn generate_steps() -> Seq<Step> {
    seq![
        Step::Write { strategy: DispatchStrategy::Static },
        Step::Write { strategy: DispatchStrategy::Dynamic },
    ]
}

/// The steps that build a case: both binaries, then their sizes, then both
/// assembly listings if they are asked for, then the symbol counts if they
/// are asked for. The static variant always comes first.
pub open spec fn build_steps(opts: CompileOpts) -> Seq<Step> {
    seq![
        Step::Compile { strategy: DispatchStrategy::Static, emit: Emit::Link },
        Step::Compile { strategy: DispatchStrategy::Dynamic, emit: Emit::Link },
        Step::Measure { strategy: DispatchStrategy::Static },
        Step::Measure { strategy: DispatchStrategy::Dynamic },
    ] + (if opts.emit_asm {
        seq![
            Step::Compile { strategy: DispatchStrategy::Static, emit: Emit::Asm },
            Step::Compile { strategy: DispatchStrategy::Dynamic, emit: Emit::Asm },
        ]
    } else {
        Seq::empty()
    }) + (if opts.symbols {
        seq![
            Step::Symbols { strategy: DispatchStrategy::Static },
            Step::Symbols { strategy: DispatchStrategy::Dynamic },
        ]
    } else {
        Seq::empty()
    })
}

/// The steps that run a case: the static binary, then the dynamic one.
pub open spec fn run_steps() -> Seq<Step> {
    seq![
        Step::Execute { strategy: DispatchStrategy::Static },
        Step::Execute { strategy: DispatchStrategy::Dynamic },
    ]
}

/// The steps of `operation`.
pub open spec fn steps_of(operation: Operation) -> Seq<Step> {
    match operation {
        Operation::Generate { opts } => generate_steps(),
        Operation::Build { opts } => build_steps(opts),
        Operation::Run => run_steps(),
    }
}

/// The error that ends a procedure on `config` when `step` does not go
/// through.
pub open spec fn failure_of(step: Step, config: CaseConfig) -> CaseError {
    match step {
        Step::Write { strategy } => CaseError::Io { config, strategy },
        Step::Compile { strategy, emit } => CaseError::Build { config, strategy },
        Step::Measure { strategy } => CaseError::Io { config, strategy },
        Step::Symbols { strategy } => CaseError::Tooling { config, strategy },
        Step::Execute { strategy } => CaseError::Run { config, strategy },
    }
}

/// The writing, the build or the run of one case, and how far it has come.
#[derive(Clone, Copy, Debug, PartialEq, Eq)]
pub struct Procedure {
    /// The case that is written, built or run.
    pub config: CaseConfig,
    /// Which of the three it is, and with what options.
    pub operation: Operation,
    /// How many steps went through.
    pub position: usize,
    /// The error of the step that did not go through, if there was one.
    pub failure: Option<CaseError>,
}

impl Procedure {
    /// A procedure for `operation` on `config` of which nothing is done yet.
    pub open spec fn fresh(config: CaseConfig, operation: Operation) -> Procedure {
        Procedure { config, operation, position: 0, failure: None }
    }

    /// All steps of this procedure, done or not.
    pub open spec fn steps(self) -> Seq<Step> {
        steps_of(self.operation)
    }

    /// The step to perform next. There is none once a step has failed or all
    /// steps are done.
    pub open spec fn pending(self) -> Option<Step> {
        if self.failure is None && self.position < self.steps().len() {
            Some(self.steps()[self.position as int])
        } else {
            None
        }
    }

    /// Have all steps gone through?
    pub open spec fn completed(self) -> bool {
        self.failure is None && self.position >= self.steps().len()
    }

    /// This procedure after its pending step went through (`ok`) or did not.
    /// A procedure without a pending step stays as it is.
    pub open spec fn after(self, ok: bool) -> Procedure {
        match self.pending() {
            None => self,
            Some(step) => if ok {
                Procedure { position: (self.position + 1) as usize, ..self }
            } else {
                Procedure { failure: Some(failure_of(step, self.config)), ..self }
            },
        }
    }

    /// This procedure after the outcomes `oks` were reported one by one.
    pub open spec fn replay(self, oks: Seq<bool>) -> Procedure
        decreases oks.len(),
    {
        if oks.len() == 0 {
            self
        } else {
            self.replay(oks.drop_last()).after(oks.last())
        }
    }

    /// The step to perform next, if any.
    pub fn next_step(&self) -> (step: Option<Step>)
        ensures
            step == self.pending(),
    {
        if self.failure.is_some() {
            return None;
        }
        match self.operation {
            Operation::Generate { opts } => generate_step_at(self.position),
            Operation::Build { opts } => build_step_at(&opts, self.position),
            Operation::Run => run_step_at(self.position),
        }
    }

    /// Reports whether the pending step went through, and moves on.
    pub fn record(&mut self, ok: bool)
        ensures
            *final(self) == old(self).after(ok),
    {
        match self.next_step() {
            None => {},
            Some(step) => {
                if ok {
                    self.position = self.position + 1;
                } else {
                    self.failure = Some(step_failure(step, &self.config));
                }
            },
        }
    }

    /// How the procedure ended: `None` as long as a step is pending, else
    /// `Ok` if every step went through and the error of the failed step if
    /// one did not.
    pub fn outcome(&self) -> (ended: Option<Result<(), CaseError>>)
        ensures
            self.pending() is Some ==> ended is None,
            self.completed() ==> ended == Some(Ok::<(), CaseError>(())),
            self.failure is Some ==> ended == Some(Err::<(), CaseError>(self.failure->0)),
    {
        match self.failure {
            Some(error) => Some(Err(error)),
            None => {
                if self.next_step().is_some() {
                    None
                } else {
                    Some(Ok(()))
                }
            },
        }
    }
}

/// The error that ends a procedure on `config` when `step` does not go
/// through.
pub fn step_failure(step: Step, config: &CaseConfig) -> (error: CaseError)
    ensures
        error == failure_of(step, *config),
{
    match step {
        Step::Write { strategy } => CaseError::Io { config: *config, strategy },
        Step::Compile { strategy, emit } => CaseError::Build { config: *config, strategy },
        Step::Measure { strategy } => CaseError::Io { config: *config, strategy },
        Step::Symbols { strategy } => CaseError::Tooling { config: *config, strategy },
        Step::Execute { strategy } => CaseError::Run { config: *config, strategy },
    }
}

/// The step at `position` of a build with `opts`, if there is one.
fn build_step_at(opts: &CompileOpts, position: usize) -> (step: Option<Step>)
    ensures
        position < build_steps(*opts).len() ==> step == Some(build_steps(*opts)[position as int]),
        position >= build_steps(*opts).len() ==> step is None,
{
    let listing_steps: usize = if opts.emit_asm {
        2
    } else {
        0
    };
    if position == 0 {
        Some(Step::Compile { strategy: DispatchStrategy::Static, emit: Emit::Link })
    } else if position == 1 {
        Some(Step::Compile { strategy: DispatchStrategy::Dynamic, emit: Emit::Link })
    } else if position == 2 {
        Some(Step::Measure { strategy: DispatchStrategy::Static })
    } else if position == 3 {
        Some(Step::Measure { strategy: DispatchStrategy::Dynamic })
    } else if opts.emit_asm && position == 4 {
        Some(Step::Compile { strategy: DispatchStrategy::Static, emit: Emit::Asm })
    } else if opts.emit_asm && position == 5 {
        Some(Step::Compile { strategy: DispatchStrategy::Dynamic, emit: Emit::Asm })
    } else if opts.symbols && position == 4 + listing_steps {
        Some(Step::Symbols { strategy: DispatchStrategy::Static })
    } else if opts.symbols && position == 5 + listing_steps {
        Some(Step::Symbols { strategy: DispatchStrategy::Dynamic })
    } else {
        None
    }
}

/// The step at `position` of a generation, if there is one.
fn generate_step_at(position: usize) -> (step: Option<Step>)
    ensures
        position < generate_steps().len() ==> step == Some(generate_steps()[position as int]),
        position >= generate_steps().len() ==> step is None,
{
    if position == 0 {
        Some(Step::Write { strategy: DispatchStrategy::Static })
    } else if position == 1 {
        Some(Step::Write { strategy: DispatchStrategy::Dynamic })
    } else {
        None
    }
}

/// The step at `position` of a run, if there is one.
fn run_step_at(position: usize) -> (step: Option<Step>)
    ensures
        position < run_steps().len() ==> step == Some(run_steps()[position as int]),
        position >= run_steps().len() ==> step is None,
{
    if position == 0 {
        Some(Step::Execute { strategy: DispatchStrategy::Static })
    } else if position == 1 {
        Some(Step::Execute { strategy: DispatchStrategy::Dynamic })
    } else {
        None
    }
}

/// Starts the writing of both programs of `config`. Any case can be
/// written, also one with an axis that is zero.
pub fn write_one_case(config: &CaseConfig, opts: &GenOpts) -> (started: Procedure)
    ensures
        started == Procedure::fresh(*config, Operation::Generate { opts: *opts }),
{
    Procedure {
        config: *config,
        operation: Operation::Generate { opts: *opts },
        position: 0,
        failure: None,
    }
}

/// Starts the build of `config`. A case with an axis that is zero is
/// refused before anything is done with it.
pub fn compile_one_case(config: &CaseConfig, opts: &CompileOpts) -> (started: Result<
    Procedure,
    CaseError,
>)
    ensures
        config.runnable() ==> started == Ok::<Procedure, CaseError>(
            Procedure::fresh(*config, Operation::Build { opts: *opts }),
        ),
        !config.runnable() ==> started == Err::<Procedure, CaseError>(
            CaseError::Configuration { config: *config },
        ),
{
    match verify_case(config) {
        Ok(()) => Ok(
            Procedure {
                config: *config,
                operation: Operation::Build { opts: *opts },
                position: 0,
                failure: None,
            },
        ),
        Err(error) => Err(error),
    }
}

/// Starts the run of `config`. A case with an axis that is zero is refused
/// before anything is done with it.
pub fn run_one_case(config: &CaseConfig) -> (started: Result<Procedure, CaseError>)
    ensures
        config.runnable() ==> started == Ok::<Procedure, CaseError>(
            Procedure::fresh(*config, Operation::Run),
        ),
        !config.runnable() ==> started == Err::<Procedure, CaseError>(
            CaseError::Configuration { config: *config },
        ),
{
    match verify_case(config) {
        Ok(()) => Ok(
            Procedure { config: *config, operation: Operation::Run, position: 0, failure: None },
        ),
        Err(error) => Err(error),
    }
}

/// A step that does not go through ends its procedure: no step is pending
/// after it, the procedure holds the error of that step, and whatever is
/// reported later changes nothing.
pub proof fn lemma_first_failure_ends(procedure: Procedure, later: bool)
    requires
        procedure.pending() is Some,
    ensures
        procedure.after(false).pending() is None,
        !procedure.after(false).completed(),
        procedure.after(false).failure == Some(
            failure_of(procedure.pending()->0, procedure.config),
        ),
        procedure.after(false).after(later) == procedure.after(false),
{
}

/// The outcomes of steps that all went through, `done` of them.
pub open spec fn all_through(done: nat) -> Seq<bool> {
    Seq::new(done, |i: int| true)
}

/// As long as every step goes through, the steps come up in their order,
/// and after the last of them the procedure is completed.
pub proof fn lemma_steps_in_order(config: CaseConfig, operation: Operation, done: nat)
    requires
        done <= steps_of(operation).len(),
    ensures
        Procedure::fresh(config, operation).replay(all_through(done)) == (Procedure {
            position: done as usize,
            ..Procedure::fresh(config, operation)
        }),
        Procedure::fresh(config, operation).replay(all_through(done)).pending() == (if done
            < steps_of(operation).len() {
            Some(steps_of(operation)[done as int])
        } else {
            None::<Step>
        }),
        Procedure::fresh(config, operation).replay(all_through(done)).completed() <==> done
            == steps_of(operation).len(),
    decreases done,
{
    let oks = all_through(done);
    if done > 0 {
        lemma_steps_in_order(config, operation, (done - 1) as nat);
        assert(oks.drop_last() =~= all_through((done - 1) as nat));
    }
}

} // verus!

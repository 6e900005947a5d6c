//! The parameters of one benchmark case and of a sweep over many.

use vstd::prelude::*;

verus! {

/// One measurement point: how many value types the generated program
/// declares, how many wrapper functions, and how often each pair of a
/// function and a type is called inside the timing loop.
#[derive(Clone, Copy, Debug, PartialEq, Eq, Structural)]
pub struct CaseConfig {
    pub num_types: u32,
    pub num_fns: u32,
    pub num_calls: u32,
}

/// A sweep over three axes. An axis whose step is zero is pinned to its
/// number. An axis with a step `s > 0` and the number `n` runs through the
/// multiples of the step up to and including the bound: `s`, `2s`, ... as
/// long as they do not exceed `n`.
#[derive(Clone, Copy, Debug, PartialEq, Eq, Structural)]
pub struct MultiCaseConfig {
    pub num_types: u32,
    pub num_fns: u32,
    pub num_calls: u32,
    pub step_types: u32,
    pub step_fns: u32,
    pub step_calls: u32,
}

/// How the generated program reaches the shared operation.
#[derive(Clone, Copy, Debug, PartialEq, Eq, Structural)]
pub enum DispatchStrategy {
    /// Through a generic parameter, resolved when the program is compiled.
    Static,
    /// Through a reference to the trait object, resolved when it runs.
    Dynamic,
}

/// The toggles that shape the generated code.
#[derive(Clone, Copy, Debug, PartialEq, Eq, Structural)]
pub struct GenOpts {
    /// Forbid inlining of every generated method and wrapper.
    pub no_inline: bool,
    /// Pass each method's and each wrapper's own index through the opaque
    /// sink, so that no two of them compile to the same code.
    pub no_dedup: bool,
    /// Order the calls of the timing loop by type first, then by function.
    /// Otherwise they are ordered by function first, then by type.
    pub predictable: bool,
}

/// What the compiler is asked to do.
#[derive(Clone, Copy, Debug, PartialEq, Eq, Structural)]
pub struct CompileOpts {
    /// Also emit the assembly text, in a compiler run of its own.
    pub emit_asm: bool,
    /// Also count the symbols of each binary.
    pub symbols: bool,
    /// The optimisation level.
    pub opt_level: u32,
}

/// What the compiler emits in one run.
#[derive(Clone, Copy, Debug, PartialEq, Eq, Structural)]
pub enum Emit {
    /// A linked binary.
    Link,
    /// Assembly text.
    Asm,
}

/// Why a single case did not go through.
#[derive(Clone, Copy, Debug, PartialEq, Eq, Structural)]
pub enum CaseError {
    /// The case has an axis that is zero: it can be generated, but never
    /// built or run.
    Configuration { config: CaseConfig },
    /// An artifact could not be written or read back.
    Io { config: CaseConfig, strategy: DispatchStrategy },
    /// The compiler did not succeed.
    Build { config: CaseConfig, strategy: DispatchStrategy },
    /// The benchmark binary did not succeed.
    Run { config: CaseConfig, strategy: DispatchStrategy },
    /// The symbol lister did not succeed.
    Tooling { config: CaseConfig, strategy: DispatchStrategy },
}

impl CaseConfig {
    /// Can this case be built and run? Only if no axis is zero.
    pub open spec fn runnable(self) -> bool {
        self.num_types > 0 && self.num_fns > 0 && self.num_calls > 0
    }
}

/// Checks that `config` can be built and run.
pub fn verify_case(config: &CaseConfig) -> (checked: Result<(), CaseError>)
    ensures
        config.runnable() ==> checked == Ok::<(), CaseError>(()),
        !config.runnable() ==> checked == Err::<(), CaseError>(
            CaseError::Configuration { config: *config },
        ),
{
    if config.num_types > 0 && config.num_fns > 0 && config.num_calls > 0 {
        Ok(())
    } else {
        Err(CaseError::Configuration { config: *config })
    }
}

} // verus!

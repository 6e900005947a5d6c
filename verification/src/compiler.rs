//! The command lines of the compiler, and what belongs to each kind of
//! output that it is asked for.

use vstd::prelude::*;
use crate::config::{CompileOpts, Emit};
use crate::text::{decimal, push_decimal};

verus! {

/// The word by which the compiler is told to emit a linked binary.
pub open spec fn link_flag() -> Seq<char> {
    "link"@
}

/// The word by which the compiler is told to emit assembly text.
pub open spec fn asm_flag() -> Seq<char> {
    "asm"@
}

/// The word by which the compiler is told what to emit.
pub open spec fn emit_flag(emit: Emit) -> Seq<char> {
    match emit {
        Emit::Link => link_flag(),
        Emit::Asm => asm_flag(),
    }
}

/// The extension of the files that the compiler writes for `emit`.
pub open spec fn emit_ext(emit: Emit) -> Seq<char> {
    match emit {
        Emit::Link => "bin"@,
        Emit::Asm => "S"@,
    }
}

/// The arguments of one compiler run: the source file, what to emit, where
/// to write it, and the optimisation level.
pub open spec fn compiler_args(
    src: Seq<char>,
    out: Seq<char>,
    emit: Seq<char>,
    opts: CompileOpts,
) -> Seq<Seq<char>> {
    seq![src, "--emit"@, emit, "-o"@, out, "-Copt-level="@ + decimal(opts.opt_level as nat)]
}

/// Do the strings `args` spell the texts `expected`, one for one?
pub open spec fn spells(args: Seq<String>, expected: Seq<Seq<char>>) -> bool {
    &&& args.len() == expected.len()
    &&& forall|i: int| 0 <= i < args.len() ==> (#[trigger] args[i])@ == expected[i]
}

impl Emit {
    /// The word by which the compiler is told to emit this.
    pub fn flag(&self) -> (word: &'static str)
        ensures
            word@ == emit_flag(*self),
    {
        match self {
            Emit::Link => "link",
            Emit::Asm => "asm",
        }
    }

    /// The extension of the files that the compiler writes for this.
    pub fn extension(&self) -> (ext: &'static str)
        ensures
            ext@ == emit_ext(*self),
    {
        match self {
            Emit::Link => "bin",
            Emit::Asm => "S",
        }
    }
}

/// The program that compiles the generated sources.
pub fn compiler() -> (program: &'static str)
    ensures
        program@ == "rustc"@,
{
    "rustc"
}

/// The program that lists the symbols of a binary. Its one argument is the
/// binary.
pub fn symbol_lister() -> (program: &'static str)
    ensures
        program@ == "nm"@,
{
    "nm"
}

/// The arguments with which the compiler turns the source file `src` into
/// `out`, emitting what the word `emit` names.
pub fn run_rustc(src: &str, out: &str, emit: &str, opts: &CompileOpts) -> (args: Vec<String>)
    ensures
        spells(args@, compiler_args(src@, out@, emit@, *opts)),
{
    let mut level = String::new();
    level.append("-Copt-level=");
    push_decimal(&mut level, opts.opt_level as u64);
    let mut args: Vec<String> = Vec::new();
    args.push(String::from_str(src));
    args.push(String::from_str("--emit"));
    args.push(String::from_str(emit));
    args.push(String::from_str("-o"));
    args.push(String::from_str(out));
    args.push(level);
    args
}

/// The arguments with which the compiler links `src` into the binary `out`.
pub fn run_rustc_bin(src: &str, out: &str, opts: &CompileOpts) -> (args: Vec<String>)
    ensures
        spells(args@, compiler_args(src@, out@, link_flag(), *opts)),
{
    run_rustc(src, out, "link", opts)
}

/// The arguments with which the compiler writes the assembly text of `src`
/// to `out`.
pub fn run_rustc_asm(src: &str, out: &str, opts: &CompileOpts) -> (args: Vec<String>)
    ensures
        spells(args@, compiler_args(src@, out@, asm_flag(), *opts)),
{
    run_rustc(src, out, "asm", opts)
}

} // verus!

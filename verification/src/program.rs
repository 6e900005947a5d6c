//! The generated program, line by line.
//!
//! A program has four parts: the preamble, one declaration for each value
//! type, one wrapper function for each function index, and the entry point
//! with the instances and the timing loop. Its text is its lines, each
//! followed by a line feed. The two variants of a case are made of the same
//! lines, except for the line that opens each wrapper function.

use vstd::prelude::*;
use crate::chains::{chain, repeat};
use crate::config::{CaseConfig, DispatchStrategy, GenOpts};
use crate::text::{decimal, unlines};

verus! {

/// How often the generated program runs through its calls.
pub const TEST_LOOPS: u64 = 100_000;

/// The attribute that forbids inlining, or nothing.
pub open spec fn inline_directive(no_inline: bool) -> Seq<char> {
    if no_inline {
        "#[inline(never)]"@
    } else {
        Seq::empty()
    }
}

/// The fields of value type `num` out of `num_types`: `num` bytes in front
/// of a `u16` and `num_types - num` bytes behind it, so that no two types
/// of a program have the same layout.
pub open spec fn type_layout(num: nat, num_types: nat) -> Seq<char> {
    "([u8; "@ + decimal(num) + "], u16, [u8; "@ + decimal((num_types - num) as nat) + "], )"@
}

/// The all-zero value of type `num` out of `num_types`.
pub open spec fn type_ctor(num: nat, num_types: nat) -> Seq<char> {
    "([0_u8; "@ + decimal(num) + "], 0_u16, [0_u8; "@ + decimal((num_types - num) as nat)
        + "], )"@
}

/// The line that defines value type `num`.
pub open spec fn struct_line(num: nat, num_types: nat) -> Seq<char> {
    "struct T"@ + decimal(num) + "("@ + type_layout(num, num_types) + ");"@
}

/// What a method or a wrapper does besides its call when deduplication is to
/// be defeated: it passes its own index to the opaque sink.
pub open spec fn method_sink(num: nat, no_dedup: bool) -> Seq<char> {
    if no_dedup {
        "black_box(&"@ + decimal(num) + "); "@
    } else {
        Seq::empty()
    }
}

/// The line that implements the shared operation for value type `num`.
pub open spec fn impl_line(num: nat, opts: GenOpts) -> Seq<char> {
    "impl Io for T"@ + decimal(num) + " { "@ + inline_directive(opts.no_inline)
        + " fn do_io_m(&self) { black_box(self); "@ + method_sink(num, opts.no_dedup) + "} }"@
}

/// The lines that declare value type `num`: its definition and its
/// implementation of the shared operation, between two empty lines.
pub open spec fn type_lines(num: nat, num_types: nat, opts: GenOpts) -> Seq<Seq<char>> {
    seq![Seq::empty(), struct_line(num, num_types), impl_line(num, opts), Seq::empty()]
}

/// The line that opens wrapper function `num`. Only here do the two
/// strategies differ.
pub open spec fn signature_line(num: nat, strategy: DispatchStrategy) -> Seq<char> {
    match strategy {
        DispatchStrategy::Static => "fn do_io_f"@ + decimal(num) + "<T: Io>(v: &T) {"@,
        DispatchStrategy::Dynamic => "fn do_io_f"@ + decimal(num) + "(v: &dyn Io) {"@,
    }
}

/// The line of wrapper `num` that passes its index to the opaque sink.
pub open spec fn wrapper_sink_line(num: nat) -> Seq<char> {
    "    black_box(&"@ + decimal(num) + ");"@
}

/// The lines that follow the call in wrapper `num`.
pub open spec fn wrapper_sink(num: nat, no_dedup: bool) -> Seq<Seq<char>> {
    if no_dedup {
        seq![wrapper_sink_line(num)]
    } else {
        Seq::empty()
    }
}

/// The lines that declare wrapper function `num`.
pub open spec fn wrapper_lines(num: nat, strategy: DispatchStrategy, opts: GenOpts) -> Seq<
    Seq<char>,
> {
    seq![
        Seq::empty(),
        inline_directive(opts.no_inline),
        signature_line(num, strategy),
        "    v.do_io_m();"@,
    ] + wrapper_sink(num, opts.no_dedup) + seq!["}"@, Seq::empty()]
}

/// The lines that every generated program starts with: a comment that
/// names the case, the feature gate and import of the opaque sink, and the
/// trait with the one operation that every value type implements.
pub open spec fn preamble_lines(config: CaseConfig) -> Seq<Seq<char>> {
    seq![
        "// types = "@ + decimal(config.num_types as nat) + ", calls = "@ + decimal(
            config.num_calls as nat,
        ),
        Seq::empty(),
        Seq::empty(),
        "#![feature(test)]"@,
        "extern crate test;"@,
        Seq::empty(),
        "use test::black_box;"@,
        Seq::empty(),
        "trait Io { fn do_io_m(&self); }"@,
        Seq::empty(),
    ]
}

/// The line of the entry point that makes the one instance of type `num`.
pub open spec fn instance_line(num: nat, num_types: nat) -> Seq<char> {
    "    static V"@ + decimal(num) + ": &T"@ + decimal(num) + " = &T"@ + decimal(num) + "("@
        + type_ctor(num, num_types) + ");"@
}

/// The line that calls wrapper `fn_num` on the instance of type `type_num`.
pub open spec fn call_line(fn_num: nat, type_num: nat) -> Seq<char> {
    "        do_io_f"@ + decimal(fn_num) + "(V"@ + decimal(type_num) + ");"@
}

/// The line that opens the timing loop.
pub open spec fn loop_line() -> Seq<char> {
    "    for _ in 0.."@ + decimal(TEST_LOOPS as nat) + " {"@
}

/// How many groups of calls the timing loop holds: one for each type when
/// the calls are ordered by type first, else one for each function.
pub open spec fn outer_count(config: CaseConfig, opts: GenOpts) -> nat {
    if opts.predictable {
        config.num_types as nat
    } else {
        config.num_fns as nat
    }
}

/// How many runs of calls one group holds: one for each function when the
/// calls are ordered by type first, else one for each type.
pub open spec fn inner_count(config: CaseConfig, opts: GenOpts) -> nat {
    if opts.predictable {
        config.num_fns as nat
    } else {
        config.num_types as nat
    }
}

/// The wrapper that run `inner` of group `outer` calls.
pub open spec fn callee(opts: GenOpts, outer: int, inner: int) -> nat {
    if opts.predictable {
        inner as nat
    } else {
        outer as nat
    }
}

/// The type on whose instance run `inner` of group `outer` calls.
pub open spec fn receiver(opts: GenOpts, outer: int, inner: int) -> nat {
    if opts.predictable {
        outer as nat
    } else {
        inner as nat
    }
}

/// Run `inner` of group `outer`: the same call, as often as the case says.
pub open spec fn call_run(config: CaseConfig, opts: GenOpts, outer: int) -> spec_fn(int) -> Seq<
    Seq<char>,
> {
    |inner: int|
        repeat(
            config.num_calls as nat,
            call_line(callee(opts, outer, inner), receiver(opts, outer, inner)),
        )
}

/// Group `outer` of the timing loop: its runs in turn, then an empty line.
pub open spec fn call_group(config: CaseConfig, opts: GenOpts) -> spec_fn(int) -> Seq<Seq<char>> {
    |outer: int|
        chain(inner_count(config, opts), call_run(config, opts, outer)) + seq![Seq::empty()]
}

/// The body of the timing loop: every pair of a function and a type, called
/// as often as the case says, group after group.
pub open spec fn timing_lines(config: CaseConfig, opts: GenOpts) -> Seq<Seq<char>> {
    chain(outer_count(config, opts), call_group(config, opts))
}

/// The declaration of each value type by its index.
pub open spec fn type_decl(num_types: nat, opts: GenOpts) -> spec_fn(int) -> Seq<Seq<char>> {
    |num: int| type_lines(num as nat, num_types, opts)
}

/// The declaration of each wrapper function by its index.
pub open spec fn wrapper_decl(strategy: DispatchStrategy, opts: GenOpts) -> spec_fn(int) -> Seq<
    Seq<char>,
> {
    |num: int| wrapper_lines(num as nat, strategy, opts)
}

/// The instance of each value type by its index.
pub open spec fn instance_decl(num_types: nat) -> spec_fn(int) -> Seq<Seq<char>> {
    |num: int| seq![instance_line(num as nat, num_types)]
}

/// Does the entry point of `config` have anything to do? Without a type or
/// without a function there is nothing to call, and it stays empty.
pub open spec fn has_calls(config: CaseConfig) -> bool {
    config.num_types > 0 && config.num_fns > 0
}

/// What stands inside the entry point: the instances, one per type, and
/// the timing loop.
pub open spec fn body_lines(config: CaseConfig, opts: GenOpts) -> Seq<Seq<char>> {
    if has_calls(config) {
        chain(config.num_types as nat, instance_decl(config.num_types as nat)) + seq![
            Seq::empty(),
            loop_line(),
        ] + timing_lines(config, opts) + seq!["    }"@]
    } else {
        Seq::empty()
    }
}

/// The entry point.
pub open spec fn entry_lines(config: CaseConfig, opts: GenOpts) -> Seq<Seq<char>> {
    seq![Seq::empty(), "fn main() {"@] + body_lines(config, opts) + seq!["}"@]
}

/// The value types of a program, in the order of their indices.
pub open spec fn type_section(config: CaseConfig, opts: GenOpts) -> Seq<Seq<char>> {
    chain(config.num_types as nat, type_decl(config.num_types as nat, opts))
}

/// The wrapper functions of a program, in the order of their indices.
pub open spec fn wrapper_section(
    config: CaseConfig,
    strategy: DispatchStrategy,
    opts: GenOpts,
) -> Seq<Seq<char>> {
    chain(config.num_fns as nat, wrapper_decl(strategy, opts))
}

/// The lines of the program for `config` under `strategy`.
pub open spec fn source_lines(
    config: CaseConfig,
    strategy: DispatchStrategy,
    opts: GenOpts,
) -> Seq<Seq<char>> {
    preamble_lines(config) + type_section(config, opts) + wrapper_section(config, strategy, opts)
        + entry_lines(config, opts)
}

/// The text of the program for `config` under `strategy`.
pub open spec fn source_text(
    config: CaseConfig,
    strategy: DispatchStrategy,
    opts: GenOpts,
) -> Seq<char> {
    unlines(source_lines(config, strategy, opts))
}

} // verus!

//! What holds of every generated program: how many declarations it has,
//! where they stand, and in what the two variants of a case differ.

use vstd::prelude::*;
use crate::chains::{
    all_of, count_of, lemma_all_chain, lemma_chain_at, lemma_chain_index, lemma_chain_len,
    lemma_count_around, lemma_count_chain, lemma_count_excluded, lemma_count_push, uniform,
};
use crate::config::{CaseConfig, DispatchStrategy, GenOpts};
use crate::program::{
    call_group, call_run, entry_lines, has_calls, impl_line, inline_directive, inner_count,
    instance_decl, method_sink, outer_count, preamble_lines, signature_line, source_lines,
    source_text, struct_line, timing_lines, type_decl, type_layout, type_lines, type_section,
    wrapper_decl, wrapper_lines, wrapper_section,
};
use crate::lines::lemma_split_join;
use crate::marks::lemma_lines_unbroken;
use crate::text::{
    begins_with, blank, decimal, lemma_differs, lemma_foreign, lemma_numbered_distinct, line_feed,
    starts, text_lines,
};

verus! {

/// What the line that defines a value type begins with.
pub open spec fn type_heading() -> Seq<char> {
    "struct T"@
}

/// What the line that implements the shared operation begins with.
pub open spec fn impl_heading() -> Seq<char> {
    "impl Io for T"@
}

/// What the line that opens a wrapper function begins with.
pub open spec fn wrapper_heading() -> Seq<char> {
    "fn do_io_f"@
}

/// The test whether a line begins with `prefix`.
pub open spec fn beginning(prefix: Seq<char>) -> spec_fn(Seq<char>) -> bool {
    |line: Seq<char>| begins_with(line, prefix)
}

/// Is `line` a line by which nothing is declared? Such a line is blank or
/// indented, closes a block, belongs to the preamble, or opens the entry
/// point.
pub open spec fn incidental(line: Seq<char>) -> bool {
    ||| blank(line)
    ||| starts(line, ' ')
    ||| starts(line, '}')
    ||| starts(line, '/')
    ||| starts(line, '#')
    ||| starts(line, 'e')
    ||| starts(line, 'u')
    ||| starts(line, 't')
    ||| line == "fn main() {"@
}

/// The test whether a line is incidental.
pub open spec fn incidentally() -> spec_fn(Seq<char>) -> bool {
    |line: Seq<char>| incidental(line)
}

/// Is `prefix` one of the three headings by which something is declared?
pub open spec fn is_heading(prefix: Seq<char>) -> bool {
    prefix == type_heading() || prefix == impl_heading() || prefix == wrapper_heading()
}

/// An incidental line begins with none of the headings.
proof fn lemma_incidental_declares_nothing(line: Seq<char>, prefix: Seq<char>)
    requires
        incidental(line),
        is_heading(prefix),
    ensures
        !begins_with(line, prefix),
{
    reveal_strlit("struct T");
    reveal_strlit("impl Io for T");
    reveal_strlit("fn do_io_f");
    reveal_strlit("fn main() {");
    if line == "fn main() {"@ {
        if prefix == wrapper_heading() {
            lemma_differs(line, prefix, 3);
        } else {
            lemma_foreign(line, prefix);
        }
    } else {
        lemma_foreign(line, prefix);
    }
}

/// No incidental line passes the test for a heading.
proof fn lemma_incidental_excludes(prefix: Seq<char>)
    requires
        is_heading(prefix),
    ensures
        forall|line: Seq<char>| #[trigger] incidentally()(line) ==> !beginning(prefix)(line),
{
    assert forall|line: Seq<char>| #[trigger] incidentally()(line) implies !beginning(prefix)(
        line,
    ) by {
        lemma_incidental_declares_nothing(line, prefix);
    }
}

/// Every line of the preamble is incidental.
proof fn lemma_preamble_incidental(config: CaseConfig)
    ensures
        all_of(preamble_lines(config), incidentally()),
{
    reveal_strlit("// types = ");
    reveal_strlit("#![feature(test)]");
    reveal_strlit("extern crate test;");
    reveal_strlit("use test::black_box;");
    reveal_strlit("trait Io { fn do_io_m(&self); }");
}

/// The lines of a wrapper begin as they should: the third with the heading
/// of a wrapper, and all others are incidental.
proof fn lemma_wrapper_lines_heads(num: nat, strategy: DispatchStrategy, opts: GenOpts)
    ensures
        wrapper_lines(num, strategy, opts).len() == (if opts.no_dedup {
            7nat
        } else {
            6nat
        }),
        forall|k: int|
            0 <= k < wrapper_lines(num, strategy, opts).len() && k != 2 ==> incidental(
                #[trigger] wrapper_lines(num, strategy, opts)[k],
            ),
        wrapper_lines(num, strategy, opts)[2] == signature_line(num, strategy),
        begins_with(signature_line(num, strategy), wrapper_heading()),
        starts(signature_line(num, strategy), 'f'),
{
    reveal_strlit("fn do_io_f");
    reveal_strlit("#[inline(never)]");
    reveal_strlit("    v.do_io_m();");
    reveal_strlit("    black_box(&");
    reveal_strlit("}");
}

/// Every line of the timing loop's body is incidental.
proof fn lemma_timing_incidental(config: CaseConfig, opts: GenOpts)
    ensures
        all_of(timing_lines(config, opts), incidentally()),
{
    reveal_strlit("        do_io_f");
    let group = call_group(config, opts);
    assert forall|outer: int| 0 <= outer < outer_count(config, opts) implies all_of(
        #[trigger] group(outer),
        incidentally(),
    ) by {
        let run = call_run(config, opts, outer);
        lemma_all_chain(inner_count(config, opts), run, incidentally());
    }
    lemma_all_chain(outer_count(config, opts), group, incidentally());
}

/// Every line of the entry point is incidental.
proof fn lemma_entry_incidental(config: CaseConfig, opts: GenOpts)
    ensures
        all_of(entry_lines(config, opts), incidentally()),
{
    reveal_strlit("    static V");
    reveal_strlit("    for _ in 0..");
    reveal_strlit("    }");
    reveal_strlit("}");
    if has_calls(config) {
        let instance = instance_decl(config.num_types as nat);
        lemma_all_chain(config.num_types as nat, instance, incidentally());
        lemma_timing_incidental(config, opts);
    }
}

/// How many lines of a program begin with a heading: for each type as many
/// as its declaration holds, for each wrapper as many as it holds, and none
/// besides.
proof fn lemma_count_headings(
    config: CaseConfig,
    strategy: DispatchStrategy,
    opts: GenOpts,
    prefix: Seq<char>,
    per_type: nat,
    per_wrapper: nat,
)
    requires
        is_heading(prefix),
        forall|num: int|
            0 <= num < config.num_types ==> count_of(
                #[trigger] type_lines(num as nat, config.num_types as nat, opts),
                beginning(prefix),
            ) == per_type,
        forall|num: int|
            0 <= num < config.num_fns ==> count_of(
                #[trigger] wrapper_lines(num as nat, strategy, opts),
                beginning(prefix),
            ) == per_wrapper,
    ensures
        count_of(source_lines(config, strategy, opts), beginning(prefix)) == config.num_types
            * per_type + config.num_fns * per_wrapper,
{
    let test = beginning(prefix);
    let a = preamble_lines(config);
    let d = entry_lines(config, opts);
    lemma_incidental_excludes(prefix);
    lemma_preamble_incidental(config);
    lemma_count_excluded(a, incidentally(), test);
    lemma_entry_incidental(config, opts);
    lemma_count_excluded(d, incidentally(), test);
    let types = type_decl(config.num_types as nat, opts);
    lemma_count_chain(config.num_types as nat, types, test, per_type);
    let wrappers = wrapper_decl(strategy, opts);
    lemma_count_chain(config.num_fns as nat, wrappers, test, per_wrapper);
}

/// Of the lines of a type's declaration one begins with the heading of a
/// definition, one with the heading of an implementation, and none with
/// the heading of a wrapper.
proof fn lemma_count_type_lines(num: nat, num_types: nat, opts: GenOpts)
    ensures
        count_of(type_lines(num, num_types, opts), beginning(type_heading())) == 1,
        count_of(type_lines(num, num_types, opts), beginning(impl_heading())) == 1,
        count_of(type_lines(num, num_types, opts), beginning(wrapper_heading())) == 0,
{
    reveal_strlit("struct T");
    reveal_strlit("impl Io for T");
    reveal_strlit("fn do_io_f");
    let lines = type_lines(num, num_types, opts);
    let l0 = lines[0];
    let l1 = lines[1];
    let l2 = lines[2];
    let l3 = lines[3];
    assert(lines =~= Seq::<Seq<char>>::empty().push(l0).push(l1).push(l2).push(l3));
    lemma_foreign(l2, type_heading());
    lemma_count_four(l0, l1, l2, l3, beginning(type_heading()));
    lemma_count_four(l0, l1, l2, l3, beginning(impl_heading()));
    lemma_count_four(l0, l1, l2, l3, beginning(wrapper_heading()));
}

/// The count of four items, item by item.
proof fn lemma_count_four<A>(a: A, b: A, c: A, d: A, test: spec_fn(A) -> bool)
    ensures
        count_of(Seq::<A>::empty().push(a).push(b).push(c).push(d), test) == (if test(a) {
            1nat
        } else {
            0nat
        }) + (if test(b) {
            1nat
        } else {
            0nat
        }) + (if test(c) {
            1nat
        } else {
            0nat
        }) + (if test(d) {
            1nat
        } else {
            0nat
        }),
{
    let e = Seq::<A>::empty();
    lemma_count_push(e, a, test);
    lemma_count_push(e.push(a), b, test);
    lemma_count_push(e.push(a).push(b), c, test);
    lemma_count_push(e.push(a).push(b).push(c), d, test);
}

/// Of the lines of a wrapper one begins with the heading of a wrapper, and
/// none with the heading of a definition or of an implementation.
proof fn lemma_count_wrapper_lines(num: nat, strategy: DispatchStrategy, opts: GenOpts)
    ensures
        count_of(wrapper_lines(num, strategy, opts), beginning(type_heading())) == 0,
        count_of(wrapper_lines(num, strategy, opts), beginning(impl_heading())) == 0,
        count_of(wrapper_lines(num, strategy, opts), beginning(wrapper_heading())) == 1,
{
    reveal_strlit("struct T");
    reveal_strlit("impl Io for T");
    lemma_wrapper_lines_heads(num, strategy, opts);
    let lines = wrapper_lines(num, strategy, opts);
    let sig = signature_line(num, strategy);
    let before = lines.take(2);
    let behind = lines.skip(3);
    assert(lines =~= before + seq![sig] + behind);
    lemma_foreign(sig, type_heading());
    lemma_foreign(sig, impl_heading());
    lemma_incidental_excludes(type_heading());
    lemma_count_around(before, sig, behind, incidentally(), beginning(type_heading()));
    lemma_incidental_excludes(impl_heading());
    lemma_count_around(before, sig, behind, incidentally(), beginning(impl_heading()));
    lemma_incidental_excludes(wrapper_heading());
    lemma_count_around(before, sig, behind, incidentally(), beginning(wrapper_heading()));
}

/// The lines of a program's text are the lines that it was put together
/// from: no line holds a line feed of its own.
pub proof fn lemma_text_lines(config: CaseConfig, strategy: DispatchStrategy, opts: GenOpts)
    ensures
        text_lines(source_text(config, strategy, opts)) == source_lines(config, strategy, opts),
{
    let lines = source_lines(config, strategy, opts);
    lemma_lines_unbroken(config, strategy, opts);
    lemma_split_join(lines, line_feed());
}

/// A program for `T` types declares exactly `T` value types and implements
/// the shared operation exactly `T` times, whatever the strategy: that many
/// of its lines begin with the heading of a definition, and that many with
/// the heading of an implementation.
pub proof fn lemma_one_declaration_per_type(
    config: CaseConfig,
    strategy: DispatchStrategy,
    opts: GenOpts,
)
    ensures
        count_of(text_lines(source_text(config, strategy, opts)), beginning(type_heading()))
            == config.num_types,
        count_of(text_lines(source_text(config, strategy, opts)), beginning(impl_heading()))
            == config.num_types,
{
    lemma_text_lines(config, strategy, opts);
    assert forall|num: int| 0 <= num < config.num_types implies count_of(
        #[trigger] type_lines(num as nat, config.num_types as nat, opts),
        beginning(type_heading()),
    ) == 1 && count_of(
        type_lines(num as nat, config.num_types as nat, opts),
        beginning(impl_heading()),
    ) == 1 by {
        lemma_count_type_lines(num as nat, config.num_types as nat, opts);
    }
    assert forall|num: int| 0 <= num < config.num_fns implies count_of(
        #[trigger] wrapper_lines(num as nat, strategy, opts),
        beginning(type_heading()),
    ) == 0 && count_of(wrapper_lines(num as nat, strategy, opts), beginning(impl_heading()))
        == 0 by {
        lemma_count_wrapper_lines(num as nat, strategy, opts);
    }
    lemma_count_headings(config, strategy, opts, type_heading(), 1, 0);
    lemma_count_headings(config, strategy, opts, impl_heading(), 1, 0);
}

/// How many lines the declaration of one wrapper takes.
pub open spec fn wrapper_height(opts: GenOpts) -> nat {
    if opts.no_dedup {
        7
    } else {
        6
    }
}

/// How long the sections in front of the entry point are: ten lines of
/// preamble, four lines for each type, and for each wrapper as many as one
/// wrapper takes.
pub proof fn lemma_section_lengths(config: CaseConfig, strategy: DispatchStrategy, opts: GenOpts)
    ensures
        preamble_lines(config).len() == 10,
        type_section(config, opts).len() == 4 * config.num_types,
        uniform(config.num_types as nat, type_decl(config.num_types as nat, opts), 4),
        wrapper_section(config, strategy, opts).len() == wrapper_height(opts) * config.num_fns,
        uniform(config.num_fns as nat, wrapper_decl(strategy, opts), wrapper_height(opts)),
{
    let types = type_decl(config.num_types as nat, opts);
    lemma_chain_len(config.num_types as nat, types, 4);
    let wrappers = wrapper_decl(strategy, opts);
    lemma_chain_len(config.num_fns as nat, wrappers, wrapper_height(opts));
}

/// Where the declaration of type `num` stands: behind the preamble and the
/// declarations of the types before it, its definition first and its
/// implementation on the line after.
pub proof fn lemma_type_places(
    config: CaseConfig,
    strategy: DispatchStrategy,
    opts: GenOpts,
    num: nat,
)
    requires
        num < config.num_types,
    ensures
        10 + 4 * num + 2 < source_lines(config, strategy, opts).len(),
        source_lines(config, strategy, opts)[(10 + 4 * num + 1) as int] == struct_line(
            num,
            config.num_types as nat,
        ),
        source_lines(config, strategy, opts)[(10 + 4 * num + 2) as int] == impl_line(num, opts),
{
    let types = type_decl(config.num_types as nat, opts);
    lemma_chain_at(config.num_types as nat, types, 4, num as int, 1);
    lemma_chain_at(config.num_types as nat, types, 4, num as int, 2);
}

/// Where the line that opens wrapper `num` stands: behind the preamble,
/// all types and the wrappers before it, on the third line of its
/// declaration.
pub proof fn lemma_wrapper_places(
    config: CaseConfig,
    strategy: DispatchStrategy,
    opts: GenOpts,
    num: nat,
)
    requires
        num < config.num_fns,
    ensures
        10 + 4 * config.num_types + wrapper_height(opts) * num + 2 < source_lines(
            config,
            strategy,
            opts,
        ).len(),
        source_lines(config, strategy, opts)[10 + 4 * config.num_types + wrapper_height(opts) * num
            + 2] == signature_line(num, strategy),
{
    lemma_section_lengths(config, strategy, opts);
    let wrappers = wrapper_decl(strategy, opts);
    let h = wrapper_height(opts);
    lemma_chain_at(config.num_fns as nat, wrappers, h, num as int, 2);
}

/// The declarations of two different types are different texts: neither
/// their definitions nor their implementations agree.
pub proof fn lemma_types_distinct(a: nat, b: nat, num_types: nat, opts: GenOpts)
    requires
        a != b,
    ensures
        struct_line(a, num_types) != struct_line(b, num_types),
        impl_line(a, opts) != impl_line(b, opts),
{
    reveal_strlit("(");
    reveal_strlit(" { ");
    let tail_a = "("@ + type_layout(a, num_types) + ");"@;
    let tail_b = "("@ + type_layout(b, num_types) + ");"@;
    assert(struct_line(a, num_types) =~= "struct T"@ + decimal(a) + tail_a);
    assert(struct_line(b, num_types) =~= "struct T"@ + decimal(b) + tail_b);
    lemma_numbered_distinct("struct T"@, a, tail_a, b, tail_b);
    let rest_a = " { "@ + inline_directive(opts.no_inline)
        + " fn do_io_m(&self) { black_box(self); "@ + method_sink(a, opts.no_dedup) + "} }"@;
    let rest_b = " { "@ + inline_directive(opts.no_inline)
        + " fn do_io_m(&self) { black_box(self); "@ + method_sink(b, opts.no_dedup) + "} }"@;
    assert(impl_line(a, opts) =~= "impl Io for T"@ + decimal(a) + rest_a);
    assert(impl_line(b, opts) =~= "impl Io for T"@ + decimal(b) + rest_b);
    lemma_numbered_distinct("impl Io for T"@, a, rest_a, b, rest_b);
}

/// The lines that open two different wrappers are different texts, and so
/// are the lines that open the same wrapper under the two strategies.
pub proof fn lemma_wrappers_distinct(a: nat, b: nat, strategy: DispatchStrategy)
    ensures
        a != b ==> signature_line(a, strategy) != signature_line(b, strategy),
        signature_line(a, DispatchStrategy::Static) != signature_line(
            a,
            DispatchStrategy::Dynamic,
        ),
{
    reveal_strlit("<T: Io>(v: &T) {");
    reveal_strlit("(v: &dyn Io) {");
    let generic = "<T: Io>(v: &T) {"@;
    let object = "(v: &dyn Io) {"@;
    if a != b {
        match strategy {
            DispatchStrategy::Static => {
                lemma_numbered_distinct("fn do_io_f"@, a, generic, b, generic);
            },
            DispatchStrategy::Dynamic => {
                lemma_numbered_distinct("fn do_io_f"@, a, object, b, object);
            },
        }
    }
    let at = "fn do_io_f"@.len() + decimal(a).len();
    assert(signature_line(a, DispatchStrategy::Dynamic)[at as int] == '(');
}

/// The two variants of a case have line for line the same program, except
/// for the lines that open the wrapper functions. In particular the
/// preamble, the types and the entry point with its instances are the same.
pub proof fn lemma_variants_differ_in_signatures_only(config: CaseConfig, opts: GenOpts)
    ensures
        text_lines(source_text(config, DispatchStrategy::Static, opts)) == source_lines(
            config,
            DispatchStrategy::Static,
            opts,
        ),
        text_lines(source_text(config, DispatchStrategy::Dynamic, opts)) == source_lines(
            config,
            DispatchStrategy::Dynamic,
            opts,
        ),
        source_lines(config, DispatchStrategy::Static, opts).len() == source_lines(
            config,
            DispatchStrategy::Dynamic,
            opts,
        ).len(),
        forall|k: int|
            #![trigger source_lines(config, DispatchStrategy::Static, opts)[k]]
            #![trigger source_lines(config, DispatchStrategy::Dynamic, opts)[k]]
            0 <= k < source_lines(config, DispatchStrategy::Static, opts).len() ==> {
                ||| source_lines(config, DispatchStrategy::Static, opts)[k] == source_lines(
                    config,
                    DispatchStrategy::Dynamic,
                    opts,
                )[k]
                ||| exists|num: nat|
                    num < config.num_fns && source_lines(config, DispatchStrategy::Static, opts)[k]
                        == #[trigger] signature_line(num, DispatchStrategy::Static)
                        && source_lines(config, DispatchStrategy::Dynamic, opts)[k]
                        == signature_line(num, DispatchStrategy::Dynamic)
            },
{
    let s = source_lines(config, DispatchStrategy::Static, opts);
    let d = source_lines(config, DispatchStrategy::Dynamic, opts);
    let front = preamble_lines(config) + type_section(config, opts);
    let ws = wrapper_section(config, DispatchStrategy::Static, opts);
    let h = wrapper_height(opts);
    let fs = wrapper_decl(DispatchStrategy::Static, opts);
    let fd = wrapper_decl(DispatchStrategy::Dynamic, opts);
    lemma_text_lines(config, DispatchStrategy::Static, opts);
    lemma_text_lines(config, DispatchStrategy::Dynamic, opts);
    lemma_section_lengths(config, DispatchStrategy::Static, opts);
    lemma_section_lengths(config, DispatchStrategy::Dynamic, opts);
    assert forall|k: int| 0 <= k < s.len() implies {
        ||| s[k] == d[k]
        ||| exists|num: nat|
            num < config.num_fns && s[k] == #[trigger] signature_line(
                num,
                DispatchStrategy::Static,
            ) && d[k] == signature_line(num, DispatchStrategy::Dynamic)
    } by {
        let start = front.len() as int;
        if start <= k < start + ws.len() {
            let at = k - start;
            lemma_chain_index(config.num_fns as nat, fs, h, at);
            lemma_chain_index(config.num_fns as nat, fd, h, at);
        }
    }
}

/// A program for `F` functions declares exactly `F` wrapper functions: that
/// many of its lines begin with the heading of a wrapper.
pub proof fn lemma_one_wrapper_per_function(
    config: CaseConfig,
    strategy: DispatchStrategy,
    opts: GenOpts,
)
    ensures
        count_of(text_lines(source_text(config, strategy, opts)), beginning(wrapper_heading()))
            == config.num_fns,
{
    lemma_text_lines(config, strategy, opts);
    assert forall|num: int| 0 <= num < config.num_types implies count_of(
        #[trigger] type_lines(num as nat, config.num_types as nat, opts),
        beginning(wrapper_heading()),
    ) == 0 by {
        lemma_count_type_lines(num as nat, config.num_types as nat, opts);
    }
    assert forall|num: int| 0 <= num < config.num_fns implies count_of(
        #[trigger] wrapper_lines(num as nat, strategy, opts),
        beginning(wrapper_heading()),
    ) == 1 by {
        lemma_count_wrapper_lines(num as nat, strategy, opts);
    }
    lemma_count_headings(config, strategy, opts, wrapper_heading(), 0, 1);
}

} // verus!

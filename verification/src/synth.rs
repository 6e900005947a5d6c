//! The source synthesizer: from a case and a dispatch strategy to the text
//! of the benchmark program.

use vstd::prelude::*;
use crate::chains::{chain, repeat};
use crate::config::{CaseConfig, DispatchStrategy, GenOpts};
use crate::program::{
    body_lines, call_group, call_line, call_run, entry_lines, inline_directive, inner_count,
    instance_decl, instance_line, loop_line, outer_count, preamble_lines, source_text, TEST_LOOPS,
    timing_lines, type_ctor, type_decl, type_layout, type_lines, type_section, wrapper_decl,
    wrapper_lines, wrapper_section,
};
use crate::text::{
    end_line, lemma_unlines_chain_step, lemma_unlines_concat, lemma_unlines_one, lemma_unlines_push,
    lemma_unlines_repeat_step, push_decimal, unlines,
};

verus! {

/// Unfolds the text of a few lines, one line at a time.
proof fn lemma_unlines_take(lines: Seq<Seq<char>>, k: int)
    requires
        0 <= k < lines.len(),
    ensures
        unlines(lines.take(k + 1)) == unlines(lines.take(k)) + unlines(seq![lines[k]]),
        unlines(lines.take(0)) == Seq::<char>::empty(),
        lines.take(lines.len() as int) == lines,
{
    assert(lines.take(k + 1) =~= lines.take(k).push(lines[k]));
    lemma_unlines_push(lines.take(k), lines[k]);
    lemma_unlines_push(Seq::empty(), lines[k]);
}

/// Ends line `k` of `lines`, of which `buf` holds the lines before `k` and
/// the characters of line `k` behind `start`.
fn close_line(
    buf: &mut String,
    Ghost(start): Ghost<Seq<char>>,
    Ghost(lines): Ghost<Seq<Seq<char>>>,
    Ghost(k): Ghost<int>,
)
    requires
        0 <= k < lines.len(),
        old(buf)@ == start + unlines(lines.take(k)) + lines[k],
    ensures
        final(buf)@ == start + unlines(lines.take(k + 1)),
{
    end_line(buf);
    proof {
        assert(lines.take(k + 1) =~= lines.take(k).push(lines[k]));
        lemma_unlines_push(lines.take(k), lines[k]);
    }
}

/// The fields of value type `num` out of `num_types`.
pub fn gen_type(num: u32, num_types: u32) -> (layout: String)
    requires
        num <= num_types,
    ensures
        layout@ == type_layout(num as nat, num_types as nat),
{
    let mut buf = String::new();
    buf.append("([u8; ");
    push_decimal(&mut buf, num as u64);
    buf.append("], u16, [u8; ");
    push_decimal(&mut buf, (num_types - num) as u64);
    buf.append("], )");
    buf
}

/// The all-zero value of type `num` out of `num_types`.
pub fn gen_ctor(num: u32, num_types: u32) -> (ctor: String)
    requires
        num <= num_types,
    ensures
        ctor@ == type_ctor(num as nat, num_types as nat),
{
    let mut buf = String::new();
    buf.append("([0_u8; ");
    push_decimal(&mut buf, num as u64);
    buf.append("], 0_u16, [0_u8; ");
    push_decimal(&mut buf, (num_types - num) as u64);
    buf.append("], )");
    buf
}

/// The text of the attribute that forbids inlining, or the empty text.
pub fn inline_str(opts: &GenOpts) -> (directive: &'static str)
    ensures
        directive@ == inline_directive(opts.no_inline),
{
    if opts.no_inline {
        "#[inline(never)]"
    } else {
        proof {
            reveal_strlit("");
        }
        ""
    }
}

/// Appends the declaration of value type `num` out of `num_types` to `f`.
pub fn write_type(f: &mut String, num: u32, num_types: u32, opts: &GenOpts)
    requires
        num <= num_types,
    ensures
        final(f)@ == old(f)@ + unlines(type_lines(num as nat, num_types as nat, *opts)),
{
    let ghost start = f@;
    let ghost lines = type_lines(num as nat, num_types as nat, *opts);
    close_line(f, Ghost(start), Ghost(lines), Ghost(0));

    f.append("struct T");
    push_decimal(f, num as u64);
    f.append("(");
    let layout = gen_type(num, num_types);
    f.append(layout.as_str());
    f.append(");");
    assert(f@ =~= start + unlines(lines.take(1)) + lines[1]);
    close_line(f, Ghost(start), Ghost(lines), Ghost(1));

    f.append("impl Io for T");
    push_decimal(f, num as u64);
    f.append(" { ");
    f.append(inline_str(opts));
    f.append(" fn do_io_m(&self) { black_box(self); ");
    if opts.no_dedup {
        f.append("black_box(&");
        push_decimal(f, num as u64);
        f.append("); ");
    }
    f.append("} }");
    assert(f@ =~= start + unlines(lines.take(2)) + lines[2]);
    close_line(f, Ghost(start), Ghost(lines), Ghost(2));

    close_line(f, Ghost(start), Ghost(lines), Ghost(3));
    proof {
        lemma_unlines_take(lines, 3);
    }
}

/// Appends wrapper function `num` to `f`, opened as `strategy` asks.
fn write_fn(f: &mut String, num: u32, strategy: DispatchStrategy, opts: &GenOpts)
    ensures
        final(f)@ == old(f)@ + unlines(wrapper_lines(num as nat, strategy, *opts)),
{
    let ghost start = f@;
    let ghost lines = wrapper_lines(num as nat, strategy, *opts);
    close_line(f, Ghost(start), Ghost(lines), Ghost(0));

    f.append(inline_str(opts));
    close_line(f, Ghost(start), Ghost(lines), Ghost(1));

    f.append("fn do_io_f");
    push_decimal(f, num as u64);
    match strategy {
        DispatchStrategy::Static => f.append("<T: Io>(v: &T) {"),
        DispatchStrategy::Dynamic => f.append("(v: &dyn Io) {"),
    }
    assert(f@ =~= start + unlines(lines.take(2)) + lines[2]);
    close_line(f, Ghost(start), Ghost(lines), Ghost(2));

    f.append("    v.do_io_m();");
    close_line(f, Ghost(start), Ghost(lines), Ghost(3));

    let ghost mut k: int = 4;
    if opts.no_dedup {
        f.append("    black_box(&");
        push_decimal(f, num as u64);
        f.append(");");
        assert(f@ =~= start + unlines(lines.take(4)) + lines[4]);
        close_line(f, Ghost(start), Ghost(lines), Ghost(4));
        proof {
            k = 5;
        }
    }

    f.append("}");
    close_line(f, Ghost(start), Ghost(lines), Ghost(k));

    close_line(f, Ghost(start), Ghost(lines), Ghost(k + 1));
    proof {
        lemma_unlines_take(lines, k + 1);
    }
}

/// Appends wrapper function `num` in its statically dispatched form to `f`:
/// the wrapper takes a reference to any type that has the operation.
pub fn write_fn_static(f: &mut String, num: u32, opts: &GenOpts)
    ensures
        final(f)@ == old(f)@ + unlines(
            wrapper_lines(num as nat, DispatchStrategy::Static, *opts),
        ),
{
    write_fn(f, num, DispatchStrategy::Static, opts)
}

/// Appends wrapper function `num` in its dynamically dispatched form to
/// `f`: the wrapper takes a reference to the trait object.
pub fn write_fn_dynamic(f: &mut String, num: u32, opts: &GenOpts)
    ensures
        final(f)@ == old(f)@ + unlines(
            wrapper_lines(num as nat, DispatchStrategy::Dynamic, *opts),
        ),
{
    write_fn(f, num, DispatchStrategy::Dynamic, opts)
}

/// Appends the one line `line` to `f`.
fn write_line(f: &mut String, line: &str)
    ensures
        final(f)@ == old(f)@ + unlines(seq![line@]),
{
    f.append(line);
    end_line(f);
    proof {
        lemma_unlines_one(line@);
    }
}

/// Appends an empty line to `f`.
fn write_empty_line(f: &mut String)
    ensures
        final(f)@ == old(f)@ + unlines(seq![Seq::empty()]),
{
    end_line(f);
    proof {
        lemma_unlines_one(Seq::empty());
    }
}

/// Appends the lines that every generated program starts with to `f`.
pub fn write_preamble(f: &mut String, config: &CaseConfig)
    ensures
        final(f)@ == old(f)@ + unlines(preamble_lines(*config)),
{
    let ghost start = f@;
    let ghost lines = preamble_lines(*config);
    f.append("// types = ");
    push_decimal(f, config.num_types as u64);
    f.append(", calls = ");
    push_decimal(f, config.num_calls as u64);
    assert(f@ =~= start + unlines(lines.take(0)) + lines[0]);
    close_line(f, Ghost(start), Ghost(lines), Ghost(0));

    close_line(f, Ghost(start), Ghost(lines), Ghost(1));

    close_line(f, Ghost(start), Ghost(lines), Ghost(2));

    f.append("#![feature(test)]");
    close_line(f, Ghost(start), Ghost(lines), Ghost(3));

    f.append("extern crate test;");
    close_line(f, Ghost(start), Ghost(lines), Ghost(4));

    close_line(f, Ghost(start), Ghost(lines), Ghost(5));

    f.append("use test::black_box;");
    close_line(f, Ghost(start), Ghost(lines), Ghost(6));

    close_line(f, Ghost(start), Ghost(lines), Ghost(7));

    f.append("trait Io { fn do_io_m(&self); }");
    close_line(f, Ghost(start), Ghost(lines), Ghost(8));

    close_line(f, Ghost(start), Ghost(lines), Ghost(9));
    proof {
        lemma_unlines_take(lines, 9);
    }
}

/// Appends the line that makes the one instance of type `num` to `f`.
pub fn write_instance(f: &mut String, num: u32, num_types: u32)
    requires
        num <= num_types,
    ensures
        final(f)@ == old(f)@ + unlines(seq![instance_line(num as nat, num_types as nat)]),
{
    f.append("    static V");
    push_decimal(f, num as u64);
    f.append(": &T");
    push_decimal(f, num as u64);
    f.append(" = &T");
    push_decimal(f, num as u64);
    f.append("(");
    let ctor = gen_ctor(num, num_types);
    f.append(ctor.as_str());
    f.append(");");
    end_line(f);
    proof {
        lemma_unlines_one(instance_line(num as nat, num_types as nat));
    }
}

/// Appends `count` calls of wrapper `fn_num` on the instance of type
/// `type_num` to `f`.
pub fn write_calls(f: &mut String, fn_num: u32, type_num: u32, count: u32)
    ensures
        final(f)@ == old(f)@ + unlines(
            repeat(count as nat, call_line(fn_num as nat, type_num as nat)),
        ),
{
    let ghost start = f@;
    let ghost line = call_line(fn_num as nat, type_num as nat);
    let mut call_num: u32 = 0;
    while call_num < count
        invariant
            call_num <= count,
            line == call_line(fn_num as nat, type_num as nat),
            f@ == start + unlines(repeat(call_num as nat, line)),
        decreases count - call_num,
    {
        f.append("        do_io_f");
        push_decimal(f, fn_num as u64);
        f.append("(V");
        push_decimal(f, type_num as u64);
        f.append(");");
        end_line(f);
        proof {
            lemma_unlines_repeat_step(call_num as nat, line);
        }
        call_num += 1;
    }
}

/// Appends the body of the timing loop to `f`.
pub fn write_timing(f: &mut String, config: &CaseConfig, opts: &GenOpts)
    ensures
        final(f)@ == old(f)@ + unlines(timing_lines(*config, *opts)),
{
    let ghost start = f@;
    let ghost group = call_group(*config, *opts);
    let outer_n = if opts.predictable {
        config.num_types
    } else {
        config.num_fns
    };
    let inner_n = if opts.predictable {
        config.num_fns
    } else {
        config.num_types
    };
    let mut outer: u32 = 0;
    while outer < outer_n
        invariant
            outer <= outer_n,
            outer_n == outer_count(*config, *opts),
            inner_n == inner_count(*config, *opts),
            group == call_group(*config, *opts),
            f@ == start + unlines(chain(outer as nat, group)),
        decreases outer_n - outer,
    {
        let ghost before = f@;
        let ghost run = call_run(*config, *opts, outer as int);
        let mut inner: u32 = 0;
        while inner < inner_n
            invariant
                inner <= inner_n,
                inner_n == inner_count(*config, *opts),
                run == call_run(*config, *opts, outer as int),
                f@ == before + unlines(chain(inner as nat, run)),
            decreases inner_n - inner,
        {
            let fn_num = if opts.predictable {
                inner
            } else {
                outer
            };
            let type_num = if opts.predictable {
                outer
            } else {
                inner
            };
            write_calls(f, fn_num, type_num, config.num_calls);
            proof {
                lemma_unlines_chain_step(inner as nat, run);
            }
            inner += 1;
        }
        write_empty_line(f);
        proof {
            lemma_unlines_concat(chain(inner_n as nat, run), seq![Seq::empty()]);
            lemma_unlines_chain_step(outer as nat, group);
        }
        outer += 1;
    }
}

/// Appends the entry point to `f`.
pub fn write_main(f: &mut String, config: &CaseConfig, opts: &GenOpts)
    ensures
        final(f)@ == old(f)@ + unlines(entry_lines(*config, *opts)),
{
    let ghost head = seq![Seq::<char>::empty(), "fn main() {"@];
    let ghost body = body_lines(*config, *opts);
    write_empty_line(f);
    write_line(f, "fn main() {");
    proof {
        lemma_unlines_concat(seq![Seq::<char>::empty()], seq!["fn main() {"@]);
        assert(seq![Seq::<char>::empty()] + seq!["fn main() {"@] =~= head);
    }
    if config.num_types > 0 && config.num_fns > 0 {
        let ghost instance = instance_decl(config.num_types as nat);
        let ghost before = f@;
        let mut type_num: u32 = 0;
        while type_num < config.num_types
            invariant
                type_num <= config.num_types,
                instance == instance_decl(config.num_types as nat),
                f@ == before + unlines(chain(type_num as nat, instance)),
            decreases config.num_types - type_num,
        {
            write_instance(f, type_num, config.num_types);
            proof {
                lemma_unlines_chain_step(type_num as nat, instance);
            }
            type_num += 1;
        }
        let ghost instances = chain(config.num_types as nat, instance);
        write_empty_line(f);
        f.append("    for _ in 0..");
        push_decimal(f, TEST_LOOPS);
        f.append(" {");
        end_line(f);
        proof {
            lemma_unlines_one(loop_line());
            lemma_unlines_concat(seq![Seq::<char>::empty()], seq![loop_line()]);
            assert(seq![Seq::<char>::empty()] + seq![loop_line()] =~= seq![
                Seq::<char>::empty(),
                loop_line(),
            ]);
            lemma_unlines_concat(instances, seq![Seq::<char>::empty(), loop_line()]);
        }
        write_timing(f, config, opts);
        write_line(f, "    }");
        proof {
            let opening = instances + seq![Seq::<char>::empty(), loop_line()];
            lemma_unlines_concat(opening, timing_lines(*config, *opts));
            lemma_unlines_concat(opening + timing_lines(*config, *opts), seq!["    }"@]);
        }
    }
    write_line(f, "}");
    proof {
        lemma_unlines_concat(head, body);
        lemma_unlines_concat(head + body, seq!["}"@]);
    }
}

/// Synthesizes the program for `config` under `strategy`: the preamble,
/// one declaration per value type, one wrapper function per function index,
/// and the entry point with the timing loop.
pub fn gen_case(config: &CaseConfig, strategy: DispatchStrategy, opts: &GenOpts) -> (source:
    String)
    ensures
        source@ == source_text(*config, strategy, *opts),
{
    let mut f = String::new();
    let ghost types = type_decl(config.num_types as nat, *opts);
    let ghost wrappers = wrapper_decl(strategy, *opts);
    write_preamble(&mut f, config);
    let ghost preamble = f@;

    let mut type_num: u32 = 0;
    while type_num < config.num_types
        invariant
            type_num <= config.num_types,
            types == type_decl(config.num_types as nat, *opts),
            f@ == preamble + unlines(chain(type_num as nat, types)),
        decreases config.num_types - type_num,
    {
        write_type(&mut f, type_num, config.num_types, opts);
        proof {
            lemma_unlines_chain_step(type_num as nat, types);
        }
        type_num += 1;
    }
    let ghost declared = f@;

    let mut fn_num: u32 = 0;
    while fn_num < config.num_fns
        invariant
            fn_num <= config.num_fns,
            wrappers == wrapper_decl(strategy, *opts),
            f@ == declared + unlines(chain(fn_num as nat, wrappers)),
        decreases config.num_fns - fn_num,
    {
        match strategy {
            DispatchStrategy::Static => write_fn_static(&mut f, fn_num, opts),
            DispatchStrategy::Dynamic => write_fn_dynamic(&mut f, fn_num, opts),
        }
        proof {
            lemma_unlines_chain_step(fn_num as nat, wrappers);
        }
        fn_num += 1;
    }

    write_main(&mut f, config, opts);
    proof {
        let a = preamble_lines(*config);
        let b = type_section(*config, *opts);
        let c = wrapper_section(*config, strategy, *opts);
        let d = entry_lines(*config, *opts);
        lemma_unlines_concat(a, b);
        lemma_unlines_concat(a + b, c);
        lemma_unlines_concat(a + b + c, d);
    }
    f
}

/// Synthesizes the statically dispatched variant of `config`.
pub fn gen_static(config: &CaseConfig, opts: &GenOpts) -> (source: String)
    ensures
        source@ == source_text(*config, DispatchStrategy::Static, *opts),
{
    gen_case(config, DispatchStrategy::Static, opts)
}

/// Synthesizes the dynamically dispatched variant of `config`.
pub fn gen_dynamic(config: &CaseConfig, opts: &GenOpts) -> (source: String)
    ensures
        source@ == source_text(*config, DispatchStrategy::Dynamic, *opts),
{
    gen_case(config, DispatchStrategy::Dynamic, opts)
}

} // verus!

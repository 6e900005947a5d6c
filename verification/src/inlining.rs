//! Which lines of a generated program carry the attribute against
//! inlining: with the toggle set, the implementation line of every type and
//! the line in front of every wrapper, and no other line; without it, no
//! line at all.

use vstd::prelude::*;
use crate::chains::{all_of, count_of, lemma_count_around, lemma_count_chain, lemma_count_excluded};
use crate::config::{CaseConfig, DispatchStrategy, GenOpts};
use crate::lines::{free_of, holding, holds, stands_at};
use crate::marks::{
    hash, lemma_definition_plain, lemma_entry_plain, lemma_impl_plain, lemma_preamble_plain,
    lemma_wrapper_plain,
};
use crate::program::{
    entry_lines, impl_line, inline_directive, method_sink, preamble_lines, source_text, type_decl,
    type_lines, wrapper_decl, wrapper_lines,
};
use crate::shape::lemma_text_lines;
use crate::text::{decimal, lemma_free_holds_not, text_lines};

verus! {

/// The attribute that forbids inlining.
pub open spec fn directive() -> Seq<char> {
    "#[inline(never)]"@
}

/// The line of the preamble that enables the opaque sink.
pub open spec fn feature_gate() -> Seq<char> {
    "#![feature(test)]"@
}

/// The test whether the attribute against inlining stands in a line.
pub open spec fn carrying() -> spec_fn(Seq<char>) -> bool {
    holding(directive())
}

/// Is `line` a line without an attribute of its own? Such a line holds no
/// hash, or it is the feature gate of the preamble.
pub open spec fn quiet(line: Seq<char>) -> bool {
    free_of(line, hash()) || line == feature_gate()
}

/// The test whether a line is quiet.
pub open spec fn quietly() -> spec_fn(Seq<char>) -> bool {
    |line: Seq<char>| quiet(line)
}

/// The attribute stands in no quiet line.
proof fn lemma_quiet_carries_nothing(line: Seq<char>)
    requires
        quiet(line),
    ensures
        !holds(line, directive()),
{
    reveal_strlit("#[inline(never)]");
    reveal_strlit("#![feature(test)]");
    if free_of(line, hash()) {
        lemma_free_holds_not(line, directive(), hash(), 0);
    } else {
        assert forall|at: int| !stands_at(line, directive(), at) by {
            if stands_at(line, directive(), at) {
                if at == 0 {
                    assert(line.subrange(0, 16)[1] == line[1]);
                } else {
                    assert(line.subrange(1, 17)[0] == line[1]);
                }
            }
        }
    }
}

/// No quiet line passes the test for the attribute.
proof fn lemma_quiet_excludes_carrying()
    ensures
        forall|line: Seq<char>| #[trigger] quietly()(line) ==> !carrying()(line),
{
    assert forall|line: Seq<char>| #[trigger] quietly()(line) implies !carrying()(line) by {
        lemma_quiet_carries_nothing(line);
    }
}

/// The implementation of a type holds the attribute if inlining is
/// forbidden, and is quiet if it is not.
proof fn lemma_impl_line_carries(num: nat, opts: GenOpts)
    ensures
        opts.no_inline ==> holds(impl_line(num, opts), directive()),
        !opts.no_inline ==> quiet(impl_line(num, opts)),
{
    let line = impl_line(num, opts);
    if opts.no_inline {
        let head = "impl Io for T"@ + decimal(num) + " { "@;
        let tail = " fn do_io_m(&self) { black_box(self); "@ + method_sink(num, opts.no_dedup)
            + "} }"@;
        let at = head.len() as int;
        assert(line.subrange(at, at + directive().len()) =~= directive());
        assert(stands_at(line, directive(), at));
    } else {
        lemma_impl_plain(num, opts, hash());
    }
}

/// Of the lines that declare a type, the implementation carries the
/// attribute if inlining is forbidden, and no other line ever does.
proof fn lemma_count_type_lines(num: nat, num_types: nat, opts: GenOpts)
    ensures
        count_of(type_lines(num, num_types, opts), carrying()) == (if opts.no_inline {
            1nat
        } else {
            0nat
        }),
{
    let lines = type_lines(num, num_types, opts);
    let before = lines.take(2);
    let behind = lines.skip(3);
    lemma_definition_plain(num, num_types, hash());
    lemma_impl_line_carries(num, opts);
    lemma_quiet_excludes_carrying();
    assert(lines =~= before + seq![impl_line(num, opts)] + behind);
    assert(all_of(behind, quietly()));
    lemma_count_around(before, impl_line(num, opts), behind, quietly(), carrying());
    if !opts.no_inline {
        lemma_quiet_carries_nothing(impl_line(num, opts));
    }
}

/// Of the lines that declare a wrapper, the one in front of the function
/// is the attribute if inlining is forbidden, and no other line ever
/// carries it.
proof fn lemma_count_wrapper_lines(num: nat, strategy: DispatchStrategy, opts: GenOpts)
    ensures
        count_of(wrapper_lines(num, strategy, opts), carrying()) == (if opts.no_inline {
            1nat
        } else {
            0nat
        }),
{
    let lines = wrapper_lines(num, strategy, opts);
    let before = lines.take(1);
    let behind = lines.skip(2);
    let line = inline_directive(opts.no_inline);
    lemma_wrapper_plain(num, strategy, opts, hash());
    lemma_quiet_excludes_carrying();
    assert(lines =~= before + seq![line] + behind);
    lemma_count_around(before, line, behind, quietly(), carrying());
    if opts.no_inline {
        assert(line.subrange(0, line.len() as int) =~= line);
        assert(stands_at(line, directive(), 0));
    } else {
        lemma_quiet_carries_nothing(line);
    }
}

/// With inlining forbidden, every method and every wrapper carries the
/// attribute against it: it stands in the implementation line of every type
/// and in front of every wrapper, and in no other line, so that a program
/// for `T` types and `F` functions holds it on `T + F` lines. Without the
/// toggle, it stands in no line of the program.
pub proof fn lemma_inlining_forbidden_or_free(
    config: CaseConfig,
    strategy: DispatchStrategy,
    opts: GenOpts,
)
    ensures
        count_of(text_lines(source_text(config, strategy, opts)), carrying()) == (
        if opts.no_inline {
            config.num_types + config.num_fns
        } else {
            0
        }),
        forall|num: nat|
            num < config.num_types ==> (#[trigger] holds(impl_line(num, opts), directive())
                <==> opts.no_inline),
        forall|num: nat|
            num < config.num_fns ==> (#[trigger] wrapper_lines(num, strategy, opts)[1]
                == directive() <==> opts.no_inline),
{
    lemma_text_lines(config, strategy, opts);
    let test = carrying();
    let each: nat = if opts.no_inline {
        1
    } else {
        0
    };
    let a = preamble_lines(config);
    let d = entry_lines(config, opts);
    lemma_quiet_excludes_carrying();
    lemma_preamble_plain(config, hash());
    lemma_count_excluded(a, quietly(), test);
    lemma_entry_plain(config, opts, hash());
    lemma_count_excluded(d, quietly(), test);
    let types = type_decl(config.num_types as nat, opts);
    assert forall|num: int| 0 <= num < config.num_types implies count_of(
        #[trigger] types(num),
        test,
    ) == each by {
        lemma_count_type_lines(num as nat, config.num_types as nat, opts);
    }
    lemma_count_chain(config.num_types as nat, types, test, each);
    let wrappers = wrapper_decl(strategy, opts);
    assert forall|num: int| 0 <= num < config.num_fns implies count_of(
        #[trigger] wrappers(num),
        test,
    ) == each by {
        lemma_count_wrapper_lines(num as nat, strategy, opts);
    }
    lemma_count_chain(config.num_fns as nat, wrappers, test, each);
    assert forall|num: nat| num < config.num_types implies (#[trigger] holds(
        impl_line(num, opts),
        directive(),
    ) <==> opts.no_inline) by {
        lemma_impl_line_carries(num, opts);
        if !opts.no_inline {
            lemma_quiet_carries_nothing(impl_line(num, opts));
        }
    }
    assert forall|num: nat| num < config.num_fns implies (#[trigger] wrapper_lines(
        num,
        strategy,
        opts,
    )[1] == directive() <==> opts.no_inline) by {
        reveal_strlit("#[inline(never)]");
    }
}

} // verus!

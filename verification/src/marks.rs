//! Two characters that matter for the shape of a generated program: the
//! line feed, which no line may hold, and the hash, with which every
//! attribute starts. This module shows which lines of a program are free
//! of them.

use vstd::prelude::*;
use crate::chains::{all_of, lemma_all_chain};
use crate::config::{CaseConfig, DispatchStrategy, GenOpts};
use crate::lines::free_of;
use crate::program::{
    call_group, call_run, entry_lines, has_calls, impl_line, inline_directive, inner_count,
    instance_decl, instance_line, outer_count, preamble_lines, source_lines, struct_line, type_decl,
    wrapper_decl, wrapper_lines,
};
use crate::text::{decimal, lemma_decimal_free, line_feed};

verus! {

/// The character with which every attribute starts.
pub open spec fn hash() -> char {
    '#'
}

/// Is `c` the line feed or the hash?
pub open spec fn is_mark(c: char) -> bool {
    c == line_feed() || c == hash()
}

/// The test whether a line is free of `mark`.
pub open spec fn lacking(mark: char) -> spec_fn(Seq<char>) -> bool {
    |line: Seq<char>| free_of(line, mark)
}

/// The texts of the preamble hold no mark, but for the hash of the feature
/// gate.
proof fn lemma_preamble_texts(mark: char)
    requires
        is_mark(mark),
    ensures
        free_of("// types = "@, mark),
        free_of(", calls = "@, mark),
        free_of("#![feature(test)]"@, line_feed()),
        free_of("extern crate test;"@, mark),
        free_of("use test::black_box;"@, mark),
        free_of("trait Io { fn do_io_m(&self); }"@, mark),
{
    reveal_strlit("// types = ");
    reveal_strlit(", calls = ");
    reveal_strlit("#![feature(test)]");
    reveal_strlit("extern crate test;");
    reveal_strlit("use test::black_box;");
    reveal_strlit("trait Io { fn do_io_m(&self); }");
}

/// The texts of a type's definition and of an instance hold no mark.
proof fn lemma_type_texts(mark: char)
    requires
        is_mark(mark),
    ensures
        free_of("struct T"@, mark),
        free_of("("@, mark),
        free_of("([u8; "@, mark),
        free_of("], u16, [u8; "@, mark),
        free_of("], )"@, mark),
        free_of(");"@, mark),
        free_of("    static V"@, mark),
        free_of(": &T"@, mark),
        free_of(" = &T"@, mark),
        free_of("([0_u8; "@, mark),
        free_of("], 0_u16, [0_u8; "@, mark),
{
    reveal_strlit("struct T");
    reveal_strlit("(");
    reveal_strlit("([u8; ");
    reveal_strlit("], u16, [u8; ");
    reveal_strlit("], )");
    reveal_strlit(");");
    reveal_strlit("    static V");
    reveal_strlit(": &T");
    reveal_strlit(" = &T");
    reveal_strlit("([0_u8; ");
    reveal_strlit("], 0_u16, [0_u8; ");
}

/// The texts of an implementation hold no mark, but for the hash of the
/// attribute.
proof fn lemma_impl_texts(mark: char)
    requires
        is_mark(mark),
    ensures
        free_of("impl Io for T"@, mark),
        free_of(" { "@, mark),
        free_of("#[inline(never)]"@, line_feed()),
        free_of(" fn do_io_m(&self) { black_box(self); "@, mark),
        free_of("black_box(&"@, mark),
        free_of("); "@, mark),
        free_of("} }"@, mark),
{
    reveal_strlit("impl Io for T");
    reveal_strlit(" { ");
    reveal_strlit("#[inline(never)]");
    reveal_strlit(" fn do_io_m(&self) { black_box(self); ");
    reveal_strlit("black_box(&");
    reveal_strlit("); ");
    reveal_strlit("} }");
}

/// The texts of a wrapper hold no mark.
proof fn lemma_wrapper_texts(mark: char)
    requires
        is_mark(mark),
    ensures
        free_of("fn do_io_f"@, mark),
        free_of("<T: Io>(v: &T) {"@, mark),
        free_of("(v: &dyn Io) {"@, mark),
        free_of("    v.do_io_m();"@, mark),
        free_of("    black_box(&"@, mark),
        free_of(");"@, mark),
        free_of("}"@, mark),
{
    reveal_strlit("fn do_io_f");
    reveal_strlit("<T: Io>(v: &T) {");
    reveal_strlit("(v: &dyn Io) {");
    reveal_strlit("    v.do_io_m();");
    reveal_strlit("    black_box(&");
    reveal_strlit(");");
    reveal_strlit("}");
}

/// The texts of the entry point hold no mark.
proof fn lemma_entry_texts(mark: char)
    requires
        is_mark(mark),
    ensures
        free_of("fn main() {"@, mark),
        free_of("    for _ in 0.."@, mark),
        free_of(" {"@, mark),
        free_of("        do_io_f"@, mark),
        free_of("(V"@, mark),
        free_of(");"@, mark),
        free_of("    }"@, mark),
        free_of("}"@, mark),
{
    reveal_strlit("fn main() {");
    reveal_strlit("    for _ in 0..");
    reveal_strlit(" {");
    reveal_strlit("        do_io_f");
    reveal_strlit("(V");
    reveal_strlit(");");
    reveal_strlit("    }");
    reveal_strlit("}");
}

/// No numeral holds a mark.
proof fn lemma_numerals_plain(mark: char)
    requires
        is_mark(mark),
    ensures
        forall|n: nat| free_of(#[trigger] decimal(n), mark),
{
    assert forall|n: nat| free_of(#[trigger] decimal(n), mark) by {
        lemma_decimal_free(n, mark);
    }
}

/// The lines of the preamble hold no mark, but for the hash of the feature
/// gate, which is its fourth line.
pub proof fn lemma_preamble_plain(config: CaseConfig, mark: char)
    requires
        is_mark(mark),
    ensures
        preamble_lines(config).len() == 10,
        preamble_lines(config)[3] == "#![feature(test)]"@,
        forall|k: int|
            0 <= k < 10 && k != 3 ==> free_of(#[trigger] preamble_lines(config)[k], mark),
        free_of(preamble_lines(config)[3], line_feed()),
{
    lemma_preamble_texts(mark);
    lemma_numerals_plain(mark);
}

/// The definition of a type and its instance hold no mark.
pub proof fn lemma_definition_plain(num: nat, num_types: nat, mark: char)
    requires
        is_mark(mark),
    ensures
        free_of(struct_line(num, num_types), mark),
        free_of(instance_line(num, num_types), mark),
{
    lemma_type_texts(mark);
    lemma_numerals_plain(mark);
}

/// The implementation of a type holds no line feed, and no hash unless
/// inlining is forbidden.
pub proof fn lemma_impl_plain(num: nat, opts: GenOpts, mark: char)
    requires
        is_mark(mark),
        !opts.no_inline || mark == line_feed(),
    ensures
        free_of(impl_line(num, opts), mark),
{
    lemma_impl_texts(mark);
    lemma_numerals_plain(mark);
}

/// The lines of a wrapper hold no mark, but for the hash of the attribute
/// on its second line when inlining is forbidden.
pub proof fn lemma_wrapper_plain(num: nat, strategy: DispatchStrategy, opts: GenOpts, mark: char)
    requires
        is_mark(mark),
    ensures
        wrapper_lines(num, strategy, opts)[1] == inline_directive(opts.no_inline),
        forall|k: int|
            0 <= k < wrapper_lines(num, strategy, opts).len() && k != 1 ==> free_of(
                #[trigger] wrapper_lines(num, strategy, opts)[k],
                mark,
            ),
        !opts.no_inline || mark == line_feed() ==> free_of(
            wrapper_lines(num, strategy, opts)[1],
            mark,
        ),
{
    lemma_wrapper_texts(mark);
    lemma_impl_texts(mark);
    lemma_numerals_plain(mark);
}

/// No line of the entry point holds a mark.
pub proof fn lemma_entry_plain(config: CaseConfig, opts: GenOpts, mark: char)
    requires
        is_mark(mark),
    ensures
        all_of(entry_lines(config, opts), lacking(mark)),
{
    lemma_entry_texts(mark);
    lemma_numerals_plain(mark);
    let test = lacking(mark);
    if has_calls(config) {
        let instance = instance_decl(config.num_types as nat);
        assert forall|num: int| 0 <= num < config.num_types implies all_of(
            #[trigger] instance(num),
            test,
        ) by {
            lemma_definition_plain(num as nat, config.num_types as nat, mark);
        }
        lemma_all_chain(config.num_types as nat, instance, test);
        let group = call_group(config, opts);
        assert forall|outer: int| 0 <= outer < outer_count(config, opts) implies all_of(
            #[trigger] group(outer),
            test,
        ) by {
            let run = call_run(config, opts, outer);
            lemma_all_chain(inner_count(config, opts), run, test);
        }
        lemma_all_chain(outer_count(config, opts), group, test);
    }
}

/// No line of a generated program holds a line feed.
pub proof fn lemma_lines_unbroken(config: CaseConfig, strategy: DispatchStrategy, opts: GenOpts)
    ensures
        all_of(source_lines(config, strategy, opts), lacking(line_feed())),
{
    let feed = line_feed();
    let test = lacking(feed);
    lemma_preamble_plain(config, feed);
    let types = type_decl(config.num_types as nat, opts);
    assert forall|num: int| 0 <= num < config.num_types implies all_of(
        #[trigger] types(num),
        test,
    ) by {
        lemma_definition_plain(num as nat, config.num_types as nat, feed);
        lemma_impl_plain(num as nat, opts, feed);
    }
    lemma_all_chain(config.num_types as nat, types, test);
    let wrappers = wrapper_decl(strategy, opts);
    assert forall|num: int| 0 <= num < config.num_fns implies all_of(
        #[trigger] wrappers(num),
        test,
    ) by {
        lemma_wrapper_plain(num as nat, strategy, opts, feed);
    }
    lemma_all_chain(config.num_fns as nat, wrappers, test);
    lemma_entry_plain(config, opts, feed);
}

} // verus!

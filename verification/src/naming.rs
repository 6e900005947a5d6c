//! The names of the files that belong to one case. They depend on the
//! case's three numbers and on the dispatch strategy, and on nothing else.

use vstd::prelude::*;
use crate::chains::{chain, lemma_chain_step};
use crate::config::{CaseConfig, DispatchStrategy};
use crate::text::{lemma_padded_distinct, push_padded, zero_padded};

verus! {

/// The word that stands for `strategy` in file names and reports.
pub open spec fn strategy_name(strategy: DispatchStrategy) -> Seq<char> {
    match strategy {
        DispatchStrategy::Static => "static"@,
        DispatchStrategy::Dynamic => "dynamic"@,
    }
}

/// The file name of one artifact: the strategy's word, then the numbers of
/// types, functions and calls, each at least four digits wide, joined by
/// hyphens, then a dot and the extension.
pub open spec fn artifact_name(
    strategy: DispatchStrategy,
    config: CaseConfig,
    ext: Seq<char>,
) -> Seq<char> {
    strategy_name(strategy) + "-"@ + zero_padded(config.num_types as nat, 4) + "-"@ + zero_padded(
        config.num_fns as nat,
        4,
    ) + "-"@ + zero_padded(config.num_calls as nat, 4) + "."@ + ext
}

/// The part of a name that holds number `at` of `numbers`: a hyphen and the
/// number, at least four digits wide.
pub open spec fn name_field(numbers: Seq<u32>) -> spec_fn(int) -> Seq<char> {
    |at: int| "-"@ + zero_padded(numbers[at] as nat, 4)
}

/// A file name with any count of numbers in it: the strategy's word, a
/// field for each number, then a dot and the extension. The names of
/// artifacts hold three numbers; cases with fewer axes are named with fewer.
pub open spec fn numbered_name(
    strategy: DispatchStrategy,
    numbers: Seq<u32>,
    ext: Seq<char>,
) -> Seq<char> {
    strategy_name(strategy) + chain(numbers.len(), name_field(numbers)) + "."@ + ext
}

/// The extension of generated source files.
pub open spec fn source_ext() -> Seq<char> {
    "rs"@
}

/// The extension of linked binaries.
pub open spec fn binary_ext() -> Seq<char> {
    "bin"@
}

/// The extension of assembly listings.
pub open spec fn assembly_ext() -> Seq<char> {
    "S"@
}

impl DispatchStrategy {
    /// The word that stands for this strategy in file names and reports.
    pub fn name(&self) -> (word: &'static str)
        ensures
            word@ == strategy_name(*self),
    {
        match self {
            DispatchStrategy::Static => "static",
            DispatchStrategy::Dynamic => "dynamic",
        }
    }
}

/// The file name of the artifact with extension `ext` that belongs to
/// `config` under `strategy`.
pub fn gen_path(strategy: DispatchStrategy, config: &CaseConfig, ext: &str) -> (name: String)
    ensures
        name@ == artifact_name(strategy, *config, ext@),
{
    let mut name = String::new();
    name.append(strategy.name());
    name.append("-");
    push_padded(&mut name, config.num_types);
    name.append("-");
    push_padded(&mut name, config.num_fns);
    name.append("-");
    push_padded(&mut name, config.num_calls);
    name.append(".");
    name.append(ext);
    name
}

/// The file name that holds `numbers` in their order, for cases that are
/// told apart by fewer or more than three numbers.
pub fn gen_name(strategy: DispatchStrategy, numbers: &[u32], ext: &str) -> (name: String)
    ensures
        name@ == numbered_name(strategy, numbers@, ext@),
{
    let ghost field = name_field(numbers@);
    let mut name = String::new();
    name.append(strategy.name());
    let mut at: usize = 0;
    while at < numbers.len()
        invariant
            at <= numbers@.len(),
            field == name_field(numbers@),
            name@ == strategy_name(strategy) + chain(at as nat, field),
        decreases numbers@.len() - at,
    {
        name.append("-");
        push_padded(&mut name, numbers[at]);
        proof {
            lemma_chain_step(at as nat, field);
        }
        at += 1;
    }
    name.append(".");
    name.append(ext);
    name
}

/// The name of an artifact is the name that holds the three numbers of its
/// case: types, functions, calls.
pub proof fn lemma_three_numbers(strategy: DispatchStrategy, config: CaseConfig, ext: Seq<char>)
    ensures
        artifact_name(strategy, config, ext) == numbered_name(
            strategy,
            seq![config.num_types, config.num_fns, config.num_calls],
            ext,
        ),
{
    let numbers = seq![config.num_types, config.num_fns, config.num_calls];
    let field = name_field(numbers);
    lemma_chain_step(0, field);
    lemma_chain_step(1, field);
    lemma_chain_step(2, field);
}

/// The file names of the two artifacts of `config` with extension `ext`:
/// first the one of the static variant, then the one of the dynamic variant.
pub fn gen_paths(config: &CaseConfig, ext: &str) -> (names: (String, String))
    ensures
        names.0@ == artifact_name(DispatchStrategy::Static, *config, ext@),
        names.1@ == artifact_name(DispatchStrategy::Dynamic, *config, ext@),
{
    let static_name = gen_path(DispatchStrategy::Static, config, ext);
    let dynamic_name = gen_path(DispatchStrategy::Dynamic, config, ext);
    (static_name, dynamic_name)
}

/// The names of the two source files of `config`.
pub fn gen_src_paths(config: &CaseConfig) -> (names: (String, String))
    ensures
        names.0@ == artifact_name(DispatchStrategy::Static, *config, source_ext()),
        names.1@ == artifact_name(DispatchStrategy::Dynamic, *config, source_ext()),
{
    gen_paths(config, "rs")
}

/// The names of the two binaries of `config`.
pub fn gen_bin_paths(config: &CaseConfig) -> (names: (String, String))
    ensures
        names.0@ == artifact_name(DispatchStrategy::Static, *config, binary_ext()),
        names.1@ == artifact_name(DispatchStrategy::Dynamic, *config, binary_ext()),
{
    gen_paths(config, "bin")
}

/// The names of the two assembly listings of `config`.
pub fn gen_asm_paths(config: &CaseConfig) -> (names: (String, String))
    ensures
        names.0@ == artifact_name(DispatchStrategy::Static, *config, assembly_ext()),
        names.1@ == artifact_name(DispatchStrategy::Dynamic, *config, assembly_ext()),
{
    gen_paths(config, "S")
}

/// No two artifacts share a name: the names of two artifacts that differ
/// in their strategy, in one of the numbers of their case or in their
/// extension are different.
pub proof fn lemma_names_distinct(
    first: (DispatchStrategy, CaseConfig, Seq<char>),
    second: (DispatchStrategy, CaseConfig, Seq<char>),
)
    requires
        first != second,
    ensures
        artifact_name(first.0, first.1, first.2) != artifact_name(second.0, second.1, second.2),
{
    reveal_strlit("static");
    reveal_strlit("dynamic");
    reveal_strlit("-");
    reveal_strlit(".");
    let name_a = artifact_name(first.0, first.1, first.2);
    let name_b = artifact_name(second.0, second.1, second.2);
    let dash = "-"@;
    let dot = "."@;
    let (ta, fa, ca) = (
        zero_padded(first.1.num_types as nat, 4),
        zero_padded(first.1.num_fns as nat, 4),
        zero_padded(first.1.num_calls as nat, 4),
    );
    let (tb, fb, cb) = (
        zero_padded(second.1.num_types as nat, 4),
        zero_padded(second.1.num_fns as nat, 4),
        zero_padded(second.1.num_calls as nat, 4),
    );
    if first.0 != second.0 {
        assert(name_b[0] == strategy_name(second.0)[0]);
    } else if first.1.num_types != second.1.num_types {
        let head = strategy_name(first.0) + dash;
        let tail_a = dash + fa + dash + ca + dot + first.2;
        let tail_b = dash + fb + dash + cb + dot + second.2;
        assert(name_a =~= head + ta + tail_a);
        assert(name_b =~= head + tb + tail_b);
        lemma_padded_distinct(
            head,
            first.1.num_types as nat,
            tail_a,
            second.1.num_types as nat,
            tail_b,
            4,
        );
    } else if first.1.num_fns != second.1.num_fns {
        let head = strategy_name(first.0) + dash + ta + dash;
        let tail_a = dash + ca + dot + first.2;
        let tail_b = dash + cb + dot + second.2;
        assert(name_a =~= head + fa + tail_a);
        assert(name_b =~= head + fb + tail_b);
        lemma_padded_distinct(
            head,
            first.1.num_fns as nat,
            tail_a,
            second.1.num_fns as nat,
            tail_b,
            4,
        );
    } else if first.1.num_calls != second.1.num_calls {
        let head = strategy_name(first.0) + dash + ta + dash + fa + dash;
        let tail_a = dot + first.2;
        let tail_b = dot + second.2;
        assert(name_a =~= head + ca + tail_a);
        assert(name_b =~= head + cb + tail_b);
        lemma_padded_distinct(
            head,
            first.1.num_calls as nat,
            tail_a,
            second.1.num_calls as nat,
            tail_b,
            4,
        );
    } else {
        let head = strategy_name(first.0) + dash + ta + dash + fa + dash + ca + dot;
        if name_a == name_b {
            assert(first.2 =~= name_a.skip(head.len() as int));
            assert(second.2 =~= name_b.skip(head.len() as int));
        }
    }
}

} // verus!

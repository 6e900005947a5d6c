//! The order of the calls in the timing loop.
//!
//! The body of the loop is made of groups, each group of runs, each run of
//! as many copies of one call as the case asks for; a blank line closes
//! each group. When the calls are ordered by function first, there is a
//! group for each function and in it a run for each type. When they are
//! ordered by type first, there is a group for each type and in it a run for
//! each function.

use vstd::prelude::*;
use crate::chains::{lemma_chain_at, lemma_chain_len, uniform};
use crate::config::{CaseConfig, GenOpts};
use crate::program::{
    call_group, call_line, call_run, callee, inner_count, outer_count, receiver, timing_lines,
};
use crate::text::blank;

verus! {

/// How many lines one group of the timing loop takes: its calls and the
/// blank line behind them.
pub open spec fn group_height(config: CaseConfig, opts: GenOpts) -> int {
    inner_count(config, opts) * config.num_calls + 1
}

/// The index of the line that makes copy `call` of the call of run `inner`
/// of group `outer`.
pub open spec fn call_place(
    config: CaseConfig,
    opts: GenOpts,
    outer: int,
    inner: int,
    call: int,
) -> int {
    outer * group_height(config, opts) + inner * config.num_calls + call
}

/// Are `outer`, `inner` and `call` the numbers of a call of the case?
pub open spec fn is_call(
    config: CaseConfig,
    opts: GenOpts,
    outer: int,
    inner: int,
    call: int,
) -> bool {
    &&& 0 <= outer < outer_count(config, opts)
    &&& 0 <= inner < inner_count(config, opts)
    &&& 0 <= call < config.num_calls
}

/// All groups of the timing loop have the same height, and all runs the
/// same length.
proof fn lemma_timing_uniform(config: CaseConfig, opts: GenOpts)
    ensures
        uniform(
            outer_count(config, opts),
            call_group(config, opts),
            group_height(config, opts) as nat,
        ),
        forall|outer: int|
            uniform(
                inner_count(config, opts),
                #[trigger] call_run(config, opts, outer),
                config.num_calls as nat,
            ),
        group_height(config, opts) >= 1,
{
    let inner_n = inner_count(config, opts);
    let group = call_group(config, opts);
    assert forall|outer: int| 0 <= outer < outer_count(config, opts) implies (#[trigger] group(
        outer,
    )).len() == group_height(config, opts) by {
        lemma_chain_len(inner_n, call_run(config, opts, outer), config.num_calls as nat);
    }
}

/// Where each call of the timing loop stands, and what it calls: the line
/// at the place of copy `call` of run `inner` of group `outer` calls the
/// wrapper of that run on the instance of that run.
pub proof fn lemma_call_places(config: CaseConfig, opts: GenOpts, outer: int, inner: int, call: int)
    requires
        is_call(config, opts, outer, inner, call),
    ensures
        timing_lines(config, opts).len() == outer_count(config, opts) * group_height(
            config,
            opts,
        ),
        0 <= call_place(config, opts, outer, inner, call) < timing_lines(config, opts).len(),
        timing_lines(config, opts)[call_place(config, opts, outer, inner, call)] == call_line(
            callee(opts, outer, inner),
            receiver(opts, outer, inner),
        ),
{
    lemma_timing_uniform(config, opts);
    let inner_n = inner_count(config, opts);
    let outer_n = outer_count(config, opts);
    let height = group_height(config, opts) as nat;
    let calls = config.num_calls as nat;
    let group = call_group(config, opts);
    let run = call_run(config, opts, outer);
    lemma_chain_at(inner_n, run, calls, inner, call);
    let within = inner * calls + call;
    lemma_chain_at(outer_n, group, height, outer, within);
}

/// A blank line closes each group of the timing loop.
pub proof fn lemma_group_closed(config: CaseConfig, opts: GenOpts, outer: int)
    requires
        0 <= outer < outer_count(config, opts),
    ensures
        0 <= (outer + 1) * group_height(config, opts) - 1 < timing_lines(config, opts).len(),
        blank(timing_lines(config, opts)[(outer + 1) * group_height(config, opts) - 1]),
{
    lemma_timing_uniform(config, opts);
    let outer_n = outer_count(config, opts);
    let height = group_height(config, opts) as nat;
    let group = call_group(config, opts);
    lemma_chain_at(outer_n, group, height, outer, height - 1);
    assert((outer + 1) * height - 1 == outer * height + (height - 1)) by (nonlinear_arith);
}

/// The calls of the timing loop stand in the order of their groups, within
/// a group in the order of their runs, and within a run in the order of
/// their copies.
pub proof fn lemma_calls_in_order(
    config: CaseConfig,
    opts: GenOpts,
    first: (int, int, int),
    second: (int, int, int),
)
    requires
        is_call(config, opts, first.0, first.1, first.2),
        is_call(config, opts, second.0, second.1, second.2),
        first.0 < second.0 || (first.0 == second.0 && (first.1 < second.1 || (first.1 == second.1
            && first.2 < second.2))),
    ensures
        call_place(config, opts, first.0, first.1, first.2) < call_place(
            config,
            opts,
            second.0,
            second.1,
            second.2,
        ),
{
    let calls = config.num_calls as int;
    let inner_n = inner_count(config, opts) as int;
    let height = group_height(config, opts);
    let within_first = first.1 * calls + first.2;
    assert(0 <= within_first < height - 1) by (nonlinear_arith)
        requires
            0 <= first.1 < inner_n,
            0 <= first.2 < calls,
            within_first == first.1 * calls + first.2,
            height == inner_n * calls + 1,
    ;
    if first.0 < second.0 {
        assert(first.0 * height + height <= second.0 * height) by (nonlinear_arith)
            requires
                first.0 + 1 <= second.0,
                height >= 0,
        ;
    } else if first.1 < second.1 {
        assert(first.1 * calls + calls <= second.1 * calls) by (nonlinear_arith)
            requires
                first.1 + 1 <= second.1,
                calls >= 0,
        ;
    }
}

/// Ordered by function first: the calls of function `fn_num` on type
/// `type_num` stand behind all calls of the functions before it, and behind
/// its own calls on the types before `type_num`.
pub proof fn lemma_function_major(
    config: CaseConfig,
    opts: GenOpts,
    fn_num: int,
    type_num: int,
    call: int,
)
    requires
        !opts.predictable,
        0 <= fn_num < config.num_fns,
        0 <= type_num < config.num_types,
        0 <= call < config.num_calls,
    ensures
        0 <= fn_num * (config.num_types * config.num_calls + 1) + type_num * config.num_calls
            + call < timing_lines(config, opts).len(),
        timing_lines(config, opts)[fn_num * (config.num_types * config.num_calls + 1) + type_num
            * config.num_calls + call] == call_line(fn_num as nat, type_num as nat),
{
    lemma_call_places(config, opts, fn_num, type_num, call);
}

/// Ordered by type first: the calls on type `type_num` by function `fn_num`
/// stand behind all calls on the types before it, and behind the calls on
/// it by the functions before `fn_num`.
pub proof fn lemma_type_major(
    config: CaseConfig,
    opts: GenOpts,
    fn_num: int,
    type_num: int,
    call: int,
)
    requires
        opts.predictable,
        0 <= fn_num < config.num_fns,
        0 <= type_num < config.num_types,
        0 <= call < config.num_calls,
    ensures
        0 <= type_num * (config.num_fns * config.num_calls + 1) + fn_num * config.num_calls + call
            < timing_lines(config, opts).len(),
        timing_lines(config, opts)[type_num * (config.num_fns * config.num_calls + 1) + fn_num
            * config.num_calls + call] == call_line(fn_num as nat, type_num as nat),
{
    lemma_call_places(config, opts, type_num, fn_num, call);
}

} // verus!

//! Sweeps: the points of a range of cases, in the order in which they are
//! visited, the single-case operations applied to every point, and the
//! tally that decides how a sweep ended.
//!
//! The type axis is the outer one, the function axis the middle one and the
//! call axis the inner one.

use vstd::prelude::*;
use crate::cases::{
    compile_one_case, gen_one_case, GeneratedCase, Operation, Procedure, run_one_case,
};
use crate::config::{CaseConfig, CaseError, CompileOpts, GenOpts, MultiCaseConfig};
use crate::chains::{chain, lemma_chain_at, lemma_chain_len, lemma_chain_step, uniform};

verus! {

/// The values of one axis. With step zero the axis is pinned: its one value
/// is `bound`. With a step above zero the values are the multiples of the
/// step, from the step itself up to and including `bound`.
pub open spec fn axis_values(bound: u32, step: u32) -> Seq<u32> {
    if step == 0 {
        seq![bound]
    } else {
        Seq::new((bound / step) as nat, |k: int| ((k + 1) * step) as u32)
    }
}

/// The points with `num_types` types and `num_fns` functions, one for each
/// number of calls.
pub open spec fn point_row(calls: Seq<u32>, num_types: u32, num_fns: u32) -> Seq<CaseConfig> {
    Seq::new(calls.len(), |k: int| CaseConfig { num_types, num_fns, num_calls: calls[k] })
}

/// The rows of the points with `num_types` types, by the index of the
/// number of functions.
pub open spec fn plane_rows(fns: Seq<u32>, calls: Seq<u32>, num_types: u32) -> spec_fn(int) -> Seq<
    CaseConfig,
> {
    |j: int| point_row(calls, num_types, fns[j])
}

/// The points with `num_types` types, row after row.
pub open spec fn point_plane(fns: Seq<u32>, calls: Seq<u32>, num_types: u32) -> Seq<CaseConfig> {
    chain(fns.len(), plane_rows(fns, calls, num_types))
}

/// The planes of all points, by the index of the number of types.
pub open spec fn space_planes(types: Seq<u32>, fns: Seq<u32>, calls: Seq<u32>) -> spec_fn(
    int,
) -> Seq<CaseConfig> {
    |i: int| point_plane(fns, calls, types[i])
}

/// Every combination of a number of types, of functions and of calls: the
/// numbers of types in turn, under each of them the numbers of functions in
/// turn, and under each of those the numbers of calls in turn.
pub open spec fn point_space(types: Seq<u32>, fns: Seq<u32>, calls: Seq<u32>) -> Seq<CaseConfig> {
    chain(types.len(), space_planes(types, fns, calls))
}

/// The points of `range` in the order in which a sweep visits them.
pub open spec fn sweep_points(range: MultiCaseConfig) -> Seq<CaseConfig> {
    point_space(
        axis_values(range.num_types, range.step_types),
        axis_values(range.num_fns, range.step_fns),
        axis_values(range.num_calls, range.step_calls),
    )
}

/// The values of a stepped axis are its positive multiples of the step up
/// to the bound, in rising order: none of them is zero, and none exceeds
/// the bound.
pub proof fn lemma_axis_values(bound: u32, step: u32, at: int)
    requires
        step > 0,
        0 <= at < axis_values(bound, step).len(),
    ensures
        axis_values(bound, step).len() == bound / step,
        axis_values(bound, step)[at] == (at + 1) * step,
        0 < axis_values(bound, step)[at] <= bound,
{
    let count = (bound / step) as int;
    assert((at + 1) * step <= bound && (at + 1) * step > 0) by (nonlinear_arith)
        requires
            0 <= at < count,
            count == bound as int / step as int,
            step > 0,
    ;
}

/// Where each point of a sweep stands: the point with the number of types
/// at index `i` of its axis, the number of functions at index `j` and the
/// number of calls at index `k` is visited after all points with an earlier
/// number of types, after those of its own number of types with an earlier
/// number of functions, and after those of its own numbers of types and
/// functions with an earlier number of calls.
pub proof fn lemma_point_places(range: MultiCaseConfig, i: int, j: int, k: int)
    requires
        0 <= i < axis_values(range.num_types, range.step_types).len(),
        0 <= j < axis_values(range.num_fns, range.step_fns).len(),
        0 <= k < axis_values(range.num_calls, range.step_calls).len(),
    ensures
        sweep_points(range).len() == axis_values(range.num_types, range.step_types).len()
            * axis_values(range.num_fns, range.step_fns).len() * axis_values(
            range.num_calls,
            range.step_calls,
        ).len(),
        0 <= (i * axis_values(range.num_fns, range.step_fns).len() + j) * axis_values(
            range.num_calls,
            range.step_calls,
        ).len() + k < sweep_points(range).len(),
        sweep_points(range)[(i * axis_values(range.num_fns, range.step_fns).len() + j)
            * axis_values(range.num_calls, range.step_calls).len() + k] == (CaseConfig {
            num_types: axis_values(range.num_types, range.step_types)[i],
            num_fns: axis_values(range.num_fns, range.step_fns)[j],
            num_calls: axis_values(range.num_calls, range.step_calls)[k],
        }),
{
    let types = axis_values(range.num_types, range.step_types);
    let fns = axis_values(range.num_fns, range.step_fns);
    let calls = axis_values(range.num_calls, range.step_calls);
    let (na, nb, nc) = (types.len(), fns.len(), calls.len());
    let planes = space_planes(types, fns, calls);
    let rows = plane_rows(fns, calls, types[i]);
    assert(uniform(na, planes, nb * nc)) by {
        assert forall|a: int| 0 <= a < na implies (#[trigger] planes(a)).len() == nb * nc by {
            let other = plane_rows(fns, calls, types[a]);
            lemma_chain_len(nb, other, nc);
        }
    }
    lemma_chain_at(nb, rows, nc, j, k);
    let within = j * nc + k;
    lemma_chain_at(na, planes, nb * nc, i, within);
    assert(i * (nb * nc) + within == (i * nb + j) * nc + k) by (nonlinear_arith)
        requires
            within == j * nc + k,
    ;
    assert(na * (nb * nc) == na * nb * nc) by (nonlinear_arith);
}

/// The values of the axis with `bound` and `step`.
pub fn axis(bound: u32, step: u32) -> (values: Vec<u32>)
    ensures
        values@ == axis_values(bound, step),
{
    let mut values: Vec<u32> = Vec::new();
    if step == 0 {
        values.push(bound);
        return values;
    }
    let count: u32 = bound / step;
    let mut k: u32 = 0;
    while k < count
        invariant
            step > 0,
            k <= count,
            count == bound / step,
            values@.len() == k,
            forall|i: int| 0 <= i < k ==> values@[i] == (i + 1) * step,
        decreases count - k,
    {
        assert((k + 1) * step <= bound) by (nonlinear_arith)
            requires
                k + 1 <= bound / step,
                step > 0,
        ;
        let value: u32 = (k + 1) * step;
        values.push(value);
        k += 1;
    }
    values
}

/// The values of the three axes of `config`: types, functions, calls.
pub fn ranges(config: &MultiCaseConfig) -> (axes: (Vec<u32>, Vec<u32>, Vec<u32>))
    ensures
        axes.0@ == axis_values(config.num_types, config.step_types),
        axes.1@ == axis_values(config.num_fns, config.step_fns),
        axes.2@ == axis_values(config.num_calls, config.step_calls),
{
    let type_range = axis(config.num_types, config.step_types);
    let fn_range = axis(config.num_fns, config.step_fns);
    let call_range = axis(config.num_calls, config.step_calls);
    (type_range, fn_range, call_range)
}

/// The points of `config` in the order in which a sweep visits them.
pub fn run_all_for(config: &MultiCaseConfig) -> (points: Vec<CaseConfig>)
    ensures
        points@ == sweep_points(*config),
{
    let (type_range, fn_range, call_range) = ranges(config);
    let ghost planes = space_planes(type_range@, fn_range@, call_range@);
    let mut points: Vec<CaseConfig> = Vec::new();
    let mut i: usize = 0;
    while i < type_range.len()
        invariant
            i <= type_range.len(),
            planes == space_planes(type_range@, fn_range@, call_range@),
            points@ == chain(i as nat, planes),
        decreases type_range.len() - i,
    {
        let num_types = type_range[i];
        let ghost before = points@;
        let ghost rows = plane_rows(fn_range@, call_range@, num_types);
        let mut j: usize = 0;
        while j < fn_range.len()
            invariant
                j <= fn_range.len(),
                rows == plane_rows(fn_range@, call_range@, num_types),
                points@ == before + chain(j as nat, rows),
            decreases fn_range.len() - j,
        {
            let num_fns = fn_range[j];
            let ghost filled = points@;
            let ghost row = point_row(call_range@, num_types, num_fns);
            let mut k: usize = 0;
            while k < call_range.len()
                invariant
                    k <= call_range.len(),
                    row == point_row(call_range@, num_types, num_fns),
                    points@ == filled + row.take(k as int),
                decreases call_range.len() - k,
            {
                points.push(CaseConfig { num_types, num_fns, num_calls: call_range[k] });
                k += 1;
            }
            proof {
                lemma_chain_step(j as nat, rows);
            }
            j += 1;
        }
        proof {
            lemma_chain_step(i as nat, planes);
        }
        i += 1;
    }
    points
}

/// Generates both programs of every point of `config`, in the order of the
/// sweep.
pub fn gen_all_cases(config: &MultiCaseConfig, opts: &GenOpts) -> (cases: Vec<GeneratedCase>)
    ensures
        cases@.len() == sweep_points(*config).len(),
        forall|i: int|
            0 <= i < cases@.len() ==> (#[trigger] cases@[i]).is_pair_of(
                sweep_points(*config)[i],
                *opts,
            ),
{
    let points = run_all_for(config);
    let mut cases: Vec<GeneratedCase> = Vec::new();
    let mut i: usize = 0;
    while i < points.len()
        invariant
            i <= points.len(),
            cases@.len() == i,
            forall|k: int| 0 <= k < i ==> (#[trigger] cases@[k]).is_pair_of(points@[k], *opts),
        decreases points.len() - i,
    {
        let case = gen_one_case(&points[i], opts);
        cases.push(case);
        i += 1;
    }
    cases
}

/// What a sweep holds for one point: the procedure to drive, or the reason
/// why the point is refused.
pub open spec fn started(config: CaseConfig, operation: Operation) -> Result<
    Procedure,
    CaseError,
> {
    if config.runnable() {
        Ok(Procedure::fresh(config, operation))
    } else {
        Err(CaseError::Configuration { config })
    }
}

/// Starts the build of every point of `config`, in the order of the sweep.
/// A point that is refused does not keep the others from being built.
pub fn compile_all_cases(config: &MultiCaseConfig, opts: &CompileOpts) -> (builds: Vec<
    Result<Procedure, CaseError>,
>)
    ensures
        builds@ == sweep_points(*config).map_values(
            |point: CaseConfig| started(point, Operation::Build { opts: *opts }),
        ),
{
    let points = run_all_for(config);
    let mut builds: Vec<Result<Procedure, CaseError>> = Vec::new();
    let mut i: usize = 0;
    while i < points.len()
        invariant
            i <= points.len(),
            builds@.len() == i,
            forall|k: int|
                0 <= k < i ==> builds@[k] == started(points@[k], Operation::Build { opts: *opts }),
        decreases points.len() - i,
    {
        builds.push(compile_one_case(&points[i], opts));
        i += 1;
    }
    builds
}

/// Starts the run of every point of `config`, in the order of the sweep. A
/// point that is refused does not keep the others from being run.
pub fn run_all_cases(config: &MultiCaseConfig) -> (runs: Vec<Result<Procedure, CaseError>>)
    ensures
        runs@ == sweep_points(*config).map_values(
            |point: CaseConfig| started(point, Operation::Run),
        ),
{
    let points = run_all_for(config);
    let mut runs: Vec<Result<Procedure, CaseError>> = Vec::new();
    let mut i: usize = 0;
    while i < points.len()
        invariant
            i <= points.len(),
            runs@.len() == i,
            forall|k: int| 0 <= k < i ==> runs@[k] == started(points@[k], Operation::Run),
        decreases points.len() - i,
    {
        runs.push(run_one_case(&points[i]));
        i += 1;
    }
    runs
}

/// How far a sweep has come: how many points it has, how many of them
/// were attempted, and how many of those went through.
///
/// A sweep is a scan that records as much as it can. A point that fails is
/// counted and left behind; it never ends the sweep.
#[derive(Clone, Copy, Debug, PartialEq, Eq, Structural)]
pub struct Tally {
    pub total: usize,
    pub attempted: usize,
    pub succeeded: usize,
}

impl Tally {
    /// No more points are counted than there are, and no more successes
    /// than attempts.
    pub open spec fn well_formed(self) -> bool {
        self.succeeded <= self.attempted <= self.total
    }

    /// The tally of a sweep over `total` points before the first of them.
    pub open spec fn fresh(total: usize) -> Tally {
        Tally { total, attempted: 0, succeeded: 0 }
    }

    /// The index of the point to attempt next, if one is left.
    pub open spec fn pending(self) -> Option<usize> {
        if self.attempted < self.total {
            Some(self.attempted)
        } else {
            None
        }
    }

    /// This tally after the pending point went through (`ok`) or did not.
    /// Either way the sweep moves on to the next point.
    pub open spec fn after(self, ok: bool) -> Tally {
        if self.attempted < self.total {
            Tally {
                total: self.total,
                attempted: (self.attempted + 1) as usize,
                succeeded: if ok {
                    (self.succeeded + 1) as usize
                } else {
                    self.succeeded
                },
            }
        } else {
            self
        }
    }

    /// This tally after the outcomes `oks` were recorded one by one.
    pub open spec fn replay(self, oks: Seq<bool>) -> Tally
        decreases oks.len(),
    {
        if oks.len() == 0 {
            self
        } else {
            self.replay(oks.drop_last()).after(oks.last())
        }
    }

    /// Did the sweep fail as a whole? It did if points were attempted and
    /// not one of them went through. A sweep without points has not failed.
    pub open spec fn all_failed(self) -> bool {
        self.attempted > 0 && self.succeeded == 0
    }

    /// The tally of a sweep over `total` points before the first of them.
    pub fn new(total: usize) -> (tally: Tally)
        ensures
            tally == Tally::fresh(total),
            tally.well_formed(),
    {
        Tally { total, attempted: 0, succeeded: 0 }
    }

    /// The index of the point to attempt next, if one is left.
    pub fn next_point(&self) -> (index: Option<usize>)
        ensures
            index == self.pending(),
    {
        if self.attempted < self.total {
            Some(self.attempted)
        } else {
            None
        }
    }

    /// Records how the pending point went, and moves on to the next.
    pub fn record(&mut self, ok: bool)
        requires
            old(self).well_formed(),
        ensures
            *final(self) == old(self).after(ok),
            final(self).well_formed(),
    {
        if self.attempted < self.total {
            self.attempted = self.attempted + 1;
            if ok {
                self.succeeded = self.succeeded + 1;
            }
        }
    }

    /// The exit status of the sweep: 1 if it failed as a whole, else 0.
    pub fn exit_code(&self) -> (code: i32)
        ensures
            code == (if self.all_failed() {
                1i32
            } else {
                0i32
            }),
    {
        if self.attempted > 0 && self.succeeded == 0 {
            1
        } else {
            0
        }
    }
}

/// Whatever the outcomes of the points attempted so far, the sweep stands
/// at the point that follows them: a failure neither ends the sweep nor
/// skips a point.
pub proof fn lemma_sweep_attempts_every_point(total: usize, oks: Seq<bool>)
    requires
        oks.len() <= total,
    ensures
        Tally::fresh(total).replay(oks).well_formed(),
        Tally::fresh(total).replay(oks).total == total,
        Tally::fresh(total).replay(oks).attempted == oks.len(),
        Tally::fresh(total).replay(oks).pending() == (if oks.len() < total {
            Some(oks.len() as usize)
        } else {
            None::<usize>
        }),
    decreases oks.len(),
{
    if oks.len() > 0 {
        lemma_sweep_attempts_every_point(total, oks.drop_last());
    }
}

/// A sweep counts as failed only if no point went through: one success
/// among the outcomes is enough for the exit status 0.
pub proof fn lemma_one_success_suffices(total: usize, oks: Seq<bool>, at: int)
    requires
        oks.len() <= total,
        0 <= at < oks.len(),
        oks[at],
    ensures
        !Tally::fresh(total).replay(oks).all_failed(),
        Tally::fresh(total).replay(oks).succeeded >= 1,
    decreases oks.len(),
{
    lemma_sweep_attempts_every_point(total, oks.drop_last());
    if at < oks.len() - 1 {
        lemma_one_success_suffices(total, oks.drop_last(), at);
    }
}

} // verus!

//! Sequences that are built group by group, and what holds of their
//! lengths, their items and the items that pass a test.

use vstd::prelude::*;

verus! {

/// `f(0)`, `f(1)`, ... `f(n - 1)` one after another.
pub open spec fn chain<A>(n: nat, f: spec_fn(int) -> Seq<A>) -> Seq<A> {
    Seq::new(n, f).flatten()
}

/// `count` copies of `item`.
pub open spec fn repeat<A>(count: nat, item: A) -> Seq<A> {
    Seq::new(count, |i: int| item)
}

/// Have the first `n` groups of `f` all the length `width`?
pub open spec fn uniform<A>(n: nat, f: spec_fn(int) -> Seq<A>, width: nat) -> bool {
    forall|i: int| 0 <= i < n ==> (#[trigger] f(i)).len() == width
}

/// How many items of `items` pass `test`.
pub open spec fn count_of<A>(items: Seq<A>, test: spec_fn(A) -> bool) -> nat {
    items.filter(test).len()
}

/// Do all items of `items` pass `test`?
pub open spec fn all_of<A>(items: Seq<A>, test: spec_fn(A) -> bool) -> bool {
    forall|k: int| 0 <= k < items.len() ==> test(#[trigger] items[k])
}

/// Where all items of every group pass the test, all items of the chain do.
pub proof fn lemma_all_chain<A>(n: nat, f: spec_fn(int) -> Seq<A>, test: spec_fn(A) -> bool)
    requires
        forall|i: int| 0 <= i < n ==> all_of(#[trigger] f(i), test),
    ensures
        all_of(chain(n, f), test),
    decreases n,
{
    if n > 0 {
        let m = (n - 1) as nat;
        lemma_all_chain(m, f, test);
        lemma_chain_step(m, f);
    }
}

/// Where all items pass a test that excludes another, none passes the
/// other.
pub proof fn lemma_count_excluded<A>(
    items: Seq<A>,
    passed: spec_fn(A) -> bool,
    test: spec_fn(A) -> bool,
)
    requires
        all_of(items, passed),
        forall|item: A| #[trigger] passed(item) ==> !test(item),
    ensures
        count_of(items, test) == 0,
{
    lemma_count_none(items, test);
}

/// Among items that pass a test which excludes another, with one more item
/// between them, the count of the other test goes by that item alone.
pub proof fn lemma_count_around<A>(
    before: Seq<A>,
    item: A,
    behind: Seq<A>,
    passed: spec_fn(A) -> bool,
    test: spec_fn(A) -> bool,
)
    requires
        all_of(before, passed),
        all_of(behind, passed),
        forall|other: A| #[trigger] passed(other) ==> !test(other),
    ensures
        count_of(before + seq![item] + behind, test) == (if test(item) {
            1nat
        } else {
            0nat
        }),
{
    lemma_count_excluded(before, passed, test);
    lemma_count_excluded(behind, passed, test);
    lemma_count_one(item, test);
}

/// One more group puts its items behind those of the chain so far.
pub proof fn lemma_chain_step<A>(n: nat, f: spec_fn(int) -> Seq<A>)
    ensures
        chain(n + 1, f) == chain(n, f) + f(n as int),
{
    assert(Seq::new(n + 1, f) =~= Seq::new(n, f).push(f(n as int)));
    Seq::new(n, f).lemma_flatten_push(f(n as int));
}

/// One more copy is pushed behind the copies so far, and no copies make
/// the empty sequence.
pub proof fn lemma_repeat_step<A>(count: nat, item: A)
    ensures
        repeat(count + 1, item) == repeat(count, item).push(item),
        repeat(0, item) == Seq::<A>::empty(),
{
}

/// A chain of `n` groups of the same width is `n` times as long as one.
pub proof fn lemma_chain_len<A>(n: nat, f: spec_fn(int) -> Seq<A>, width: nat)
    requires
        uniform(n, f, width),
    ensures
        chain(n, f).len() == n * width,
    decreases n,
{
    if n > 0 {
        let m = (n - 1) as nat;
        lemma_chain_len(m, f, width);
        lemma_chain_step(m, f);
        assert(m * width + width == n * width) by (nonlinear_arith)
            requires
                m + 1 == n,
        ;
    }
}

/// Item `j` of group `i` stands in the chain behind the `i` groups before
/// it.
pub proof fn lemma_chain_at<A>(n: nat, f: spec_fn(int) -> Seq<A>, width: nat, i: int, j: int)
    requires
        uniform(n, f, width),
        0 <= i < n,
        0 <= j < width,
    ensures
        0 <= i * width + j < n * width,
        chain(n, f).len() == n * width,
        chain(n, f)[i * width + j] == f(i)[j],
    decreases n,
{
    let m = (n - 1) as nat;
    lemma_chain_len(n, f, width);
    lemma_chain_len(m, f, width);
    lemma_chain_step(m, f);
    if i != m {
        lemma_chain_at(m, f, width, i, j);
    }
}

/// The item at index `k` of a chain of groups of the same width: divide
/// `k` by the width for the group, and take the remainder for the place in
/// it.
pub proof fn lemma_chain_index<A>(n: nat, f: spec_fn(int) -> Seq<A>, width: nat, k: int)
    requires
        uniform(n, f, width),
        0 <= k < n * width,
    ensures
        width > 0,
        0 <= k / (width as int) < n,
        0 <= k % (width as int) < width,
        chain(n, f)[k] == f(k / (width as int))[k % (width as int)],
{
    let w = width as int;
    let i = k / w;
    let j = k % w;
    assert(0 <= i < n) by (nonlinear_arith)
        requires
            k == w * i + j,
            0 <= j < w,
            0 <= k < n * w,
    ;
    lemma_chain_at(n, f, width, i, j);
}

/// Of one item, one passes the test or none.
pub proof fn lemma_count_one<A>(item: A, test: spec_fn(A) -> bool)
    ensures
        count_of(seq![item], test) == (if test(item) {
            1nat
        } else {
            0nat
        }),
{
    reveal_with_fuel(Seq::filter, 2);
}

/// One more item adds one to the count if it passes the test.
pub proof fn lemma_count_push<A>(items: Seq<A>, item: A, test: spec_fn(A) -> bool)
    ensures
        count_of(items.push(item), test) == count_of(items, test) + (if test(item) {
            1nat
        } else {
            0nat
        }),
{
    assert(items.push(item) =~= items + seq![item]);
    lemma_count_one(item, test);
}

/// Where no item passes the test, the count is zero.
pub proof fn lemma_count_none<A>(items: Seq<A>, test: spec_fn(A) -> bool)
    requires
        forall|i: int| 0 <= i < items.len() ==> !test(#[trigger] items[i]),
    ensures
        count_of(items, test) == 0,
    decreases items.len(),
{
    if items.len() > 0 {
        lemma_count_none(items.drop_last(), test);
        assert(items =~= items.drop_last().push(items.last()));
        lemma_count_push(items.drop_last(), items.last(), test);
    }
}

/// Where every group holds `each` items that pass the test, a chain of `n`
/// groups holds `n` times as many.
pub proof fn lemma_count_chain<A>(
    n: nat,
    f: spec_fn(int) -> Seq<A>,
    test: spec_fn(A) -> bool,
    each: nat,
)
    requires
        forall|i: int| 0 <= i < n ==> count_of(#[trigger] f(i), test) == each,
    ensures
        count_of(chain(n, f), test) == n * each,
    decreases n,
{
    if n > 0 {
        let m = (n - 1) as nat;
        lemma_count_chain(m, f, test, each);
        lemma_chain_step(m, f);
        assert(m * each + each == n * each) by (nonlinear_arith)
            requires
                m + 1 == n,
        ;
    }
}

} // verus!

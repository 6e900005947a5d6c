//! Texts and their lines, over any kind of character: splitting a text at
//! its line feeds, joining lines into a text, and looking for a pattern in
//! a line.

use vstd::prelude::*;
use vstd::seq_lib::lemma_flatten_concat;

verus! {

/// Does `pattern` stand in `line` at index `at`?
pub open spec fn stands_at<A>(line: Seq<A>, pattern: Seq<A>, at: int) -> bool {
    0 <= at && at + pattern.len() <= line.len() && line.subrange(at, at + pattern.len())
        == pattern
}

/// Does `pattern` stand anywhere in `line`?
pub open spec fn holds<A>(line: Seq<A>, pattern: Seq<A>) -> bool {
    exists|at: int| stands_at(line, pattern, at)
}

/// The test whether `pattern` stands in a line.
pub open spec fn holding<A>(pattern: Seq<A>) -> spec_fn(Seq<A>) -> bool {
    |line: Seq<A>| holds(line, pattern)
}

/// Is `c` no character of `line`?
pub open spec fn free_of<A>(line: Seq<A>, c: A) -> bool {
    forall|i: int| 0 <= i < line.len() ==> line[i] != c
}

/// The length of the first line of `text`, without its line feed.
pub open spec fn first_line_len<A>(text: Seq<A>, feed: A) -> nat
    decreases text.len(),
{
    if text.len() == 0 || text[0] == feed {
        0
    } else {
        1 + first_line_len(text.drop_first(), feed)
    }
}

/// The lines of `text`. A line feed ends a line; the last line may do
/// without one. The lines hold no line feed.
pub open spec fn split_lines<A>(text: Seq<A>, feed: A) -> Seq<Seq<A>>
    decreases text.len(),
{
    let n = first_line_len(text, feed);
    if text.len() == 0 {
        Seq::empty()
    } else if n >= text.len() {
        seq![text]
    } else {
        seq![text.take(n as int)] + split_lines(text.skip(n as int + 1), feed)
    }
}

/// The text made of `lines`, each followed by a line feed.
pub open spec fn join_lines<A>(lines: Seq<Seq<A>>, feed: A) -> Seq<A> {
    lines.map_values(|line: Seq<A>| line.push(feed)).flatten()
}

/// The first line of a text ends inside the text, and holds no line feed.
pub proof fn lemma_first_line<A>(text: Seq<A>, feed: A)
    ensures
        0 <= first_line_len(text, feed) <= text.len(),
        first_line_len(text, feed) < text.len() ==> text[first_line_len(text, feed) as int]
            == feed,
        forall|i: int| 0 <= i < first_line_len(text, feed) ==> text[i] != feed,
    decreases text.len(),
{
    if text.len() > 0 && text[0] != feed {
        let rest = text.drop_first();
        lemma_first_line(rest, feed);
        assert forall|i: int| 0 <= i < first_line_len(text, feed) implies text[i] != feed by {
            if i > 0 {
                assert(text[i] == rest[i - 1]);
            }
        }
    }
}

/// A stretch without a line feed that ends at a line feed or at the end of
/// the text is the first line.
pub proof fn lemma_first_line_found<A>(text: Seq<A>, feed: A, n: int)
    requires
        0 <= n <= text.len(),
        forall|i: int| 0 <= i < n ==> text[i] != feed,
        n < text.len() ==> text[n] == feed,
    ensures
        first_line_len(text, feed) == n,
    decreases text.len(),
{
    if n > 0 {
        let rest = text.drop_first();
        lemma_first_line_found(rest, feed, n - 1);
    }
}

/// Joining no lines gives the empty text, and one more line in front puts
/// that line and a line feed in front of the text.
pub proof fn lemma_join_front<A>(lines: Seq<Seq<A>>, feed: A)
    ensures
        lines.len() == 0 ==> join_lines(lines, feed) == Seq::<A>::empty(),
        lines.len() > 0 ==> join_lines(lines, feed) == lines[0].push(feed) + join_lines(
            lines.drop_first(),
            feed,
        ),
{
    let f = |line: Seq<A>| line.push(feed);
    if lines.len() > 0 {
        assert(lines.map_values(f).drop_first() =~= lines.drop_first().map_values(f));
    }
}

/// Lines that hold no line feed are the lines of their joined text:
/// splitting undoes joining.
pub proof fn lemma_split_join<A>(lines: Seq<Seq<A>>, feed: A)
    requires
        forall|k: int| 0 <= k < lines.len() ==> free_of(#[trigger] lines[k], feed),
    ensures
        split_lines(join_lines(lines, feed), feed) == lines,
    decreases lines.len(),
{
    let text = join_lines(lines, feed);
    lemma_join_front(lines, feed);
    if lines.len() > 0 {
        let first = lines[0];
        let rest = lines.drop_first();
        let tail = join_lines(rest, feed);
        let n = first.len() as int;
        lemma_first_line_found(text, feed, n);
        assert(text.take(n) =~= first);
        assert(text.skip(n + 1) =~= tail);
        lemma_split_join(rest, feed);
    }
}

/// The text of two runs of lines is the text of the first followed by the
/// text of the second.
pub proof fn lemma_join_concat<A>(first: Seq<Seq<A>>, second: Seq<Seq<A>>, feed: A)
    ensures
        join_lines(first + second, feed) == join_lines(first, feed) + join_lines(second, feed),
{
    let f = |line: Seq<A>| line.push(feed);
    assert((first + second).map_values(f) =~= first.map_values(f) + second.map_values(f));
    lemma_flatten_concat(first.map_values(f), second.map_values(f));
}

} // verus!

//! Symbol classification: how many lines of a symbol listing name a method
//! of the shared operation, and how many name a wrapper function.
//!
//! The classification goes by the names alone. It is as good as the naming
//! of the generated programs: every method is called `do_io_m`, and every
//! wrapper has a name that starts with `do_io_f`.

use vstd::prelude::*;
use crate::chains::{count_of, lemma_count_one};
use crate::lines::{
    first_line_len, holding, holds, lemma_first_line, lemma_first_line_found, split_lines,
    stands_at,
};

verus! {

/// The byte that ends a line.
pub const LINE_FEED: u8 = 10;

/// The number of lines of `text` in which `pattern` stands.
pub open spec fn count_lines(text: Seq<u8>, pattern: Seq<u8>) -> nat {
    count_of(split_lines(text, LINE_FEED), holding(pattern))
}

/// The bytes of a text of ASCII characters.
pub open spec fn ascii_bytes(text: Seq<char>) -> Seq<u8> {
    Seq::new(text.len(), |i: int| text[i] as u8)
}

/// What marks a symbol as a method of the shared operation.
pub open spec fn method_pattern() -> Seq<u8> {
    ascii_bytes("do_io_m"@)
}

/// What marks a symbol as a wrapper function.
pub open spec fn wrapper_pattern() -> Seq<u8> {
    ascii_bytes("do_io_f"@)
}

/// The count of a text that is not empty: one for its first line if the
/// pattern stands in it, and the count of what follows the first line.
proof fn lemma_count_lines_step(text: Seq<u8>, pattern: Seq<u8>)
    requires
        text.len() > 0,
    ensures
        count_lines(text, pattern) == (if holds(
            text.take(first_line_len(text, LINE_FEED) as int),
            pattern,
        ) {
            1nat
        } else {
            0nat
        }) + (if first_line_len(text, LINE_FEED) >= text.len() {
            0nat
        } else {
            count_lines(text.skip(first_line_len(text, LINE_FEED) as int + 1), pattern)
        }),
{
    let n = first_line_len(text, LINE_FEED) as int;
    let test = holding(pattern);
    lemma_first_line(text, LINE_FEED);
    lemma_count_one(text.take(n), test);
    if n >= text.len() {
        assert(text.take(n) =~= text);
    }
}

/// Does `pattern` stand in `text` at index `at`?
fn matches_at(text: &[u8], at: usize, pattern: &[u8]) -> (found: bool)
    requires
        at + pattern@.len() <= text@.len(),
    ensures
        found == (text@.subrange(at as int, at + pattern@.len()) == pattern@),
{
    let size = text.len();
    let width = pattern.len();
    let mut k: usize = 0;
    while k < width
        invariant
            k <= width,
            width == pattern@.len(),
            size == text@.len(),
            at + width <= size,
            forall|i: int| 0 <= i < k ==> text@[at + i] == pattern@[i],
        decreases width - k,
    {
        if text[at + k] != pattern[k] {
            return false;
        }
        k += 1;
    }
    assert(text@.subrange(at as int, at + pattern@.len()) =~= pattern@);
    true
}

/// Does `pattern` stand in the stretch of `text` from `start` up to `end`?
fn stretch_holds(text: &[u8], start: usize, end: usize, pattern: &[u8]) -> (found: bool)
    requires
        start <= end <= text@.len(),
    ensures
        found == holds(text@.subrange(start as int, end as int), pattern@),
{
    let ghost line = text@.subrange(start as int, end as int);
    if pattern.len() == 0 {
        assert(line.subrange(0, 0) =~= pattern@);
        assert(stands_at(line, pattern@, 0));
        return true;
    }
    if pattern.len() > end - start {
        return false;
    }
    let last: usize = end - pattern.len();
    let mut at: usize = start;
    while at <= last
        invariant
            start <= at <= last + 1,
            last < end,
            last + pattern@.len() == end,
            end <= text@.len(),
            line == text@.subrange(start as int, end as int),
            forall|i: int| 0 <= i < at - start ==> !stands_at(line, pattern@, i),
        decreases last + 1 - at,
    {
        let found = matches_at(text, at, pattern);
        assert(line.subrange(at - start, at - start + pattern@.len()) =~= text@.subrange(
            at as int,
            at + pattern@.len(),
        ));
        if found {
            assert(stands_at(line, pattern@, at - start));
            return true;
        }
        at += 1;
    }
    false
}

/// The index at which the line that starts at `start` ends: that of its line
/// feed, or the length of `text` if it has none.
fn line_end(text: &[u8], start: usize) -> (end: usize)
    requires
        start <= text@.len(),
    ensures
        start <= end <= text@.len(),
        end - start == first_line_len(text@.skip(start as int), LINE_FEED),
{
    let mut end: usize = start;
    while end < text.len() && text[end] != LINE_FEED
        invariant
            start <= end <= text@.len(),
            forall|i: int| start <= i < end ==> text@[i] != LINE_FEED,
        decreases text@.len() - end,
    {
        end += 1;
    }
    proof {
        lemma_first_line_found(text@.skip(start as int), LINE_FEED, end - start);
    }
    end
}

/// Counts the lines of `listing` in which `pattern` stands.
pub fn count_matching_lines(listing: &[u8], pattern: &[u8]) -> (count: usize)
    ensures
        count == count_lines(listing@, pattern@),
{
    let mut count: usize = 0;
    let mut start: usize = 0;
    assert(listing@.skip(0) =~= listing@);
    while start < listing.len()
        invariant
            start <= listing@.len(),
            count <= start,
            count + count_lines(listing@.skip(start as int), pattern@) == count_lines(
                listing@,
                pattern@,
            ),
        decreases listing@.len() - start,
    {
        let ghost rest = listing@.skip(start as int);
        let end = line_end(listing, start);
        proof {
            lemma_count_lines_step(rest, pattern@);
            assert(rest.take(end - start) =~= listing@.subrange(start as int, end as int));
        }
        let found = stretch_holds(listing, start, end, pattern);
        if end < listing.len() {
            assert(rest.skip(end - start + 1) =~= listing@.skip(end + 1));
            start = end + 1;
        } else {
            start = end;
        }
        if found {
            count += 1;
        }
    }
    count
}

/// The bytes of the name that marks a method of the shared operation.
pub fn method_marker() -> (marker: &'static [u8])
    ensures
        marker@ == method_pattern(),
{
    let name = "do_io_m";
    proof {
        reveal_strlit("do_io_m");
        vstd::string::is_ascii_spec_bytes(name);
    }
    let marker = name.as_bytes();
    marker
}

/// The bytes of the name that marks a wrapper function.
pub fn wrapper_marker() -> (marker: &'static [u8])
    ensures
        marker@ == wrapper_pattern(),
{
    let name = "do_io_f";
    proof {
        reveal_strlit("do_io_f");
        vstd::string::is_ascii_spec_bytes(name);
    }
    let marker = name.as_bytes();
    marker
}

/// Classifies the symbols of `listing`, the output of the symbol lister
/// with one symbol on each line: first the number of lines that name a
/// method of the shared operation, then the number of lines that name a
/// wrapper function.
pub fn count_symbols(listing: &[u8]) -> (counts: (usize, usize))
    ensures
        counts.0 == count_lines(listing@, method_pattern()),
        counts.1 == count_lines(listing@, wrapper_pattern()),
{
    let method_count = count_matching_lines(listing, method_marker());
    let fn_count = count_matching_lines(listing, wrapper_marker());
    (method_count, fn_count)
}

} // verus!

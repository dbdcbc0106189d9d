//! Index ranges and the index arithmetic around blend2d's containers.
use vstd::prelude::*;

verus! {

/// One end of a range of indices.
#[derive(Clone, Copy, Debug, PartialEq, Eq)]
pub enum Bound {
    /// The end includes this index.
    Included(usize),
    /// The end stops just before this index.
    Excluded(usize),
    /// The range is open at this end.
    Unbounded,
}

/// A half-open range `[start, end)` of indices, as blend2d takes it.
#[derive(Clone, Copy, Debug, PartialEq, Eq)]
pub struct BlRange {
    pub start: usize,
    pub end: usize,
}

/// Whether a start bound can be turned into an index: a range never starts
/// with an excluded bound.
pub open spec fn valid_start(start: Bound) -> bool {
    !(start is Excluded)
}

/// Whether an end bound can be turned into the index just past the range: an
/// included end must leave room for the index after it.
pub open spec fn valid_end(end: Bound) -> bool {
    end matches Bound::Included(n) ==> n < usize::MAX
}

/// The first index of a range: an included start, or zero when the range is
/// open at its start.
pub open spec fn start_index(start: Bound) -> usize {
    match start {
        Bound::Included(n) => n,
        _ => 0,
    }
}

/// The index just past the end of a range: the index after an included end,
/// an excluded end as it is, and `open_end` when the range is open at its end.
pub open spec fn end_index(end: Bound, open_end: usize) -> usize {
    match end {
        Bound::Included(n) => (n + 1) as usize,
        Bound::Excluded(n) => n,
        Bound::Unbounded => open_end,
    }
}

/// Whether index `i` lies inside a range with these bounds over `len` items.
pub open spec fn in_range(start: Bound, end: Bound, len: usize, i: int) -> bool {
    &&& match start {
        Bound::Included(n) => n <= i,
        Bound::Excluded(n) => n < i,
        Bound::Unbounded => 0 <= i,
    }
    &&& match end {
        Bound::Included(n) => i <= n,
        Bound::Excluded(n) => i < n,
        Bound::Unbounded => i < len,
    }
}

/// The half-open pair of indices that a range's bounds are turned into holds
/// exactly the indices inside the range.
pub proof fn lemma_indices_cover_range(start: Bound, end: Bound, len: usize, i: int)
    requires
        valid_start(start),
        valid_end(end),
    ensures
        start_index(start) <= i < end_index(end, len) <==> in_range(start, end, len, i),
{
}

fn start_of(start: Bound) -> (r: usize)
    requires
        valid_start(start),
    ensures
        r == start_index(start),
{
    match start {
        Bound::Included(n) => n,
        Bound::Excluded(_) => 0,
        Bound::Unbounded => 0,
    }
}

/// Turns the bounds of a range over `len` items into a half-open `BlRange`;
/// an open end becomes `len`.
pub fn bl_range(start: Bound, end: Bound, len: usize) -> (r: BlRange)
    requires
        valid_start(start),
        valid_end(end),
    ensures
        r.start == start_index(start),
        r.end == end_index(end, len),
{
    let s = start_of(start);
    let e = match end {
        Bound::Included(n) => n + 1,
        Bound::Excluded(n) => n,
        Bound::Unbounded => len,
    };
    BlRange { start: s, end: e }
}

/// Turns the bounds of a range into a half-open pair of indices; an open end
/// becomes the value of `len_func`, which is only called for an open end.
pub fn range_to_tuple<F>(start: Bound, end: Bound, len_func: F) -> (r: (usize, usize)) where
    F: FnOnce() -> usize,

    requires
        valid_start(start),
        valid_end(end),
        end is Unbounded ==> call_requires(len_func, ()),
    ensures
        r.0 == start_index(start),
        !(end is Unbounded) ==> r.1 == end_index(end, 0),
        end is Unbounded ==> call_ensures(len_func, (), r.1),
{
    let s = start_of(start);
    let e = match end {
        Bound::Included(n) => n + 1,
        Bound::Excluded(n) => n,
        Bound::Unbounded => len_func(),
    };
    (s, e)
}

/// The length an array keeps when it is truncated to `n` items: `n`, or its
/// current length `len` where that is smaller.
pub fn truncated_len(n: usize, len: usize) -> (r: usize)
    ensures
        r == (if n < len { n } else { len }),
        r <= n,
        r <= len,
{
    if n < len {
        n
    } else {
        len
    }
}

/// How many fill items a resize to `n` items adds to an array of length `len`:
/// the difference where the array grows, none where it shrinks or stays.
pub fn fill_count(n: usize, len: usize) -> (r: usize)
    ensures
        r == (if n > len { (n - len) as usize } else { 0 }),
        len + r == (if n > len { n } else { len }),
{
    match n.checked_sub(len) {
        Some(d) => d,
        None => 0,
    }
}

/// An index that blend2d reports with all bits set when nothing was found.
pub fn found_index(raw: usize) -> (r: Option<usize>)
    ensures
        r == (if raw == usize::MAX { None } else { Some(raw) }),
{
    if raw == usize::MAX {
        None
    } else {
        Some(raw)
    }
}

} // verus!

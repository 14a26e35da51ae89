//! Allocation of globally ordered chunk indices.
//!
//! Every emitted batch is stamped with an index drawn from one shared
//! allocator, so that the chunks of all source operators feeding one
//! pipeline carry a total order suitable for a deterministic merge
//! downstream. One call reserves a whole range at once; ranges reserved by
//! successive calls never overlap, whichever operator made them.

use vstd::prelude::*;

verus! {

/// The indices stamped onto a group of `count` chunks whose range starts
/// at `start`: `start`, `start + 1`, ... in emission order.
pub open spec fn stamp_indices(start: u64, count: int) -> Seq<u64> {
    Seq::new(count as nat, |i: int| (start + i) as u64)
}

/// Hands out contiguous, strictly increasing index ranges. Each operator
/// is given the allocator by the driver at construction time; operators
/// that must run concurrently share one allocator through the driver's
/// exclusion mechanism, so every `reserve` sees the state the previous
/// one left.
pub struct IndexAllocator {
    next_index: u64,
}

impl IndexAllocator {
    /// The first index that the next `reserve` call will hand out.
    pub closed spec fn spec_next(&self) -> u64 {
        self.next_index
    }

    /// A fresh allocator whose first reserved range starts at `start`.
    pub fn new(start: u64) -> (r: Self)
        ensures
            r.spec_next() == start,
    {
        IndexAllocator { next_index: start }
    }

    /// The first index of the range the next `reserve` call would return.
    pub fn next_to_issue(&self) -> (r: u64)
        ensures
            r == self.spec_next(),
    {
        self.next_index
    }

    /// Reserves `count` consecutive indices and returns the first of them,
    /// advancing the allocator past the whole range: a group of `count`
    /// chunks is assigned exactly the indices `[start, start + count)`.
    pub fn reserve(&mut self, count: u64) -> (start: u64)
        requires
            old(self).spec_next() + count <= u64::MAX,
        ensures
            start == old(self).spec_next(),
            final(self).spec_next() == old(self).spec_next() + count,
    {
        let start = self.next_index;
        self.next_index = self.next_index + count;
        start
    }
}

/// The indices stamped onto one chunk group form a contiguous, strictly
/// increasing sequence starting at the allocator-assigned base.
pub proof fn lemma_stamp_indices_contiguous(start: u64, count: int)
    requires
        0 <= count,
        start + count <= u64::MAX,
    ensures
        stamp_indices(start, count).len() == count,
        forall|i: int| 0 <= i < count ==> stamp_indices(start, count)[i] == start + i,
        forall|i: int, j: int|
            0 <= i < j < count ==> stamp_indices(start, count)[i] < stamp_indices(start, count)[j],
{
}

/// Two chunk groups stamped back to back from one allocator carry the
/// same indices as a single group covering both: across a whole run the
/// indices form one contiguous strictly increasing sequence.
pub proof fn lemma_stamp_runs_concatenate(start: u64, k1: int, k2: int)
    requires
        0 <= k1,
        0 <= k2,
        start + k1 + k2 <= u64::MAX,
    ensures
        stamp_indices(start, k1) + stamp_indices((start + k1) as u64, k2) == stamp_indices(
            start,
            k1 + k2,
        ),
{
    assert(stamp_indices(start, k1) + stamp_indices((start + k1) as u64, k2) =~= stamp_indices(
        start,
        k1 + k2,
    ));
}

/// Index ranges reserved by different calls never overlap: no index
/// stamped in the earlier range appears in the later one, however the
/// reserving operators interleave.
pub proof fn lemma_stamp_ranges_disjoint(s1: u64, k1: int, s2: u64, k2: int)
    requires
        0 <= k1,
        0 <= k2,
        s1 + k1 <= s2,
        s2 + k2 <= u64::MAX,
    ensures
        forall|v: u64| stamp_indices(s1, k1).contains(v) ==> !stamp_indices(s2, k2).contains(v),
{
    assert forall|v: u64| stamp_indices(s1, k1).contains(v) implies !stamp_indices(
        s2,
        k2,
    ).contains(v) by {
        let i = choose|i: int| 0 <= i < k1 && stamp_indices(s1, k1)[i] == v;
        assert(v < s2);
        assert forall|j: int| 0 <= j < k2 implies stamp_indices(s2, k2)[j] != v by {
            assert(stamp_indices(s2, k2)[j] >= s2);
        }
    }
}

} // verus!

//! A change counter that starts at `0` and wraps around to `1`.

use vstd::prelude::*;

verus! {

/// The count that follows `v`: one more, or `1` after the largest value.
///
/// `0` is never a successor, so it stays a reliable mark for "never written".
pub open spec fn next_count(v: u32) -> u32 {
    if v < u32::MAX {
        (v + 1) as u32
    } else {
        1
    }
}

/// A sequence number which
/// - starts at `0`,
/// - can only be incremented by 1 and
/// - wraps around to `1` when exceeding its limits.
#[derive(Clone, Copy, Debug, PartialEq, Eq, Structural)]
pub struct SequenceNumber(u32);

impl View for SequenceNumber {
    type V = u32;

    closed spec fn view(&self) -> u32 {
        self.0
    }
}

impl SequenceNumber {
    /// A counter that has never been incremented.
    pub fn new() -> (sq: Self)
        ensures
            sq@ == 0,
    {
        SequenceNumber(0)
    }

    /// A counter that stands at `count`.
    pub fn starting_at(count: u32) -> (sq: Self)
        ensures
            sq@ == count,
    {
        SequenceNumber(count)
    }

    /// Moves the counter to its successor.
    pub fn increment(&mut self)
        ensures
            final(self)@ == next_count(old(self)@),
        opens_invariants none
        no_unwind
    {
        if self.0 < u32::MAX {
            self.0 += 1;
        } else {
            self.0 = 1;
        }
    }

    /// The current count.
    pub fn value(&self) -> (v: u32)
        ensures
            v == self@,
        opens_invariants none
        no_unwind
    {
        self.0
    }
}

impl Default for SequenceNumber {
    fn default() -> (sq: Self)
        ensures
            sq@ == 0,
    {
        SequenceNumber(0)
    }
}

/// A successor is never `0`.
pub proof fn lemma_next_count_is_positive(v: u32)
    ensures
        next_count(v) != 0,
        next_count(v) >= 1,
{
}

/// An increment never lowers the count, except for the wrap from the largest
/// value to `1`.
pub proof fn lemma_next_count_monotonic(v: u32)
    ensures
        v < u32::MAX ==> next_count(v) == v + 1,
        v == u32::MAX ==> next_count(v) == 1,
        v != u32::MAX ==> next_count(v) > v,
{
}

} // verus!

//! The unit of storage of a port: an optional value with its change counter.

use crate::sequence_number::{next_count, SequenceNumber};
use vstd::prelude::*;

verus! {

/// What a cell holds, as a plain value: the optional value and the count of
/// its changes.
pub struct CellState<T> {
    pub value: Option<T>,
    pub version: u32,
}

impl<T> CellState<T> {
    /// The state of a cell that has never been written.
    pub open spec fn untouched() -> Self {
        CellState { value: None, version: 0 }
    }

    /// The state after `value` was set.
    pub open spec fn set(self, value: T) -> Self {
        CellState { value: Some(value), version: next_count(self.version) }
    }

    /// The state after the value was taken out.
    pub open spec fn take(self) -> Self {
        CellState { value: None, version: next_count(self.version) }
    }

    /// The state after one more change was counted.
    pub open spec fn touch(self) -> Self {
        CellState { value: self.value, version: next_count(self.version) }
    }

    /// A cell that was never written holds nothing.
    pub open spec fn wf(self) -> bool {
        self.version == 0 ==> self.value is None
    }
}

/// An optional value of type `T` together with the count of its changes.
///
/// The count is `0` as long as the value has never been touched; every `set`,
/// `replace` and `take` moves it on by exactly one.
pub struct PortValue<T> {
    value: Option<T>,
    sequence_number: SequenceNumber,
}

impl<T> View for PortValue<T> {
    type V = CellState<T>;

    closed spec fn view(&self) -> CellState<T> {
        CellState { value: self.value, version: self.sequence_number@ }
    }
}

impl<T> PortValue<T> {
    /// The value that is currently held.
    pub open spec fn content(&self) -> Option<T> {
        self@.value
    }

    /// The count of changes so far.
    pub open spec fn version(&self) -> u32 {
        self@.version
    }

    /// A cell that was never written holds nothing.
    pub open spec fn wf(&self) -> bool {
        self@.wf()
    }

    /// An empty cell that has never been written.
    pub fn empty() -> (cell: Self)
        ensures
            cell@ == CellState::<T>::untouched(),
    {
        PortValue { value: None, sequence_number: SequenceNumber::new() }
    }

    /// A cell that starts with `value`, which counts as its first change.
    pub fn new(value: T) -> (cell: Self)
        ensures
            cell@ == CellState::<T>::untouched().set(value),
            cell.version() == 1,
    {
        let mut sequence_number = SequenceNumber::new();
        sequence_number.increment();
        PortValue { value: Some(value), sequence_number }
    }

    /// A reference to the value, if there is one.
    pub fn as_ref(&self) -> (value: Option<&T>)
        ensures
            value is Some == self.content() is Some,
            value is Some ==> *value->0 == self.content()->0,
    {
        self.value.as_ref()
    }

    /// A reference to the value for writing, if there is one. The count is
    /// left alone: whoever writes through the reference accounts for it.
    pub fn as_mut(&mut self) -> (value: Option<&mut T>)
        ensures
            value is Some == old(self).content() is Some,
            value is Some ==> *value->0 == old(self).content()->0 && final(self).content() == Some(
                *final(value->0),
            ),
            value is None ==> final(self).content() is None,
            final(self).version() == old(self).version(),
    {
        self.value.as_mut()
    }

    /// Whether a value is held.
    pub fn is_some(&self) -> (b: bool)
        ensures
            b == self.content() is Some,
    {
        self.value.is_some()
    }

    /// Whether no value is held.
    pub fn is_none(&self) -> (b: bool)
        ensures
            b == self.content() is None,
    {
        self.value.is_none()
    }

    /// Puts `value` into the cell and hands back what was there before.
    pub fn replace(&mut self, value: T) -> (previous: Option<T>)
        ensures
            previous == old(self).content(),
            final(self)@ == old(self)@.set(value),
    {
        self.sequence_number.increment();
        let previous = self.value.take();
        self.value = Some(value);
        previous
    }

    /// The count of changes so far.
    pub fn sequence_number(&self) -> (n: u32)
        ensures
            n == self.version(),
    {
        self.sequence_number.value()
    }

    /// Puts `value` into the cell.
    pub fn set(&mut self, value: T)
        ensures
            final(self)@ == old(self)@.set(value),
    {
        self.sequence_number.increment();
        self.value = Some(value);
    }

    /// Takes the value out of the cell, which is empty afterwards.
    pub fn take(&mut self) -> (previous: Option<T>)
        ensures
            previous == old(self).content(),
            final(self)@ == old(self)@.take(),
    {
        self.sequence_number.increment();
        self.value.take()
    }

    /// Counts one change. It is what the release of a write access does after
    /// the value was handed out for writing.
    pub fn touch(&mut self)
        ensures
            final(self)@ == old(self)@.touch(),
        opens_invariants none
        no_unwind
    {
        self.sequence_number.increment();
    }
}

impl<T: Clone> PortValue<T> {
    /// A clone of the value, if there is one. The cell is left as it is.
    pub fn get(&self) -> (value: Option<T>)
        ensures
            value is Some == self.content() is Some,
            value is Some ==> cloned(self.content()->0, value->0),
    {
        self.value.clone()
    }
}

impl<T> Default for PortValue<T> {
    fn default() -> (cell: Self)
        ensures
            cell@ == CellState::<T>::untouched(),
    {
        PortValue::empty()
    }
}

/// A cell starts untouched, at version `0`, and each change moves the
/// version to its successor: it grows by one, or wraps from the largest value
/// to `1`. So the version never falls but at the wrap, and is never `0` again.
pub proof fn lemma_version_steps<T>(state: CellState<T>, value: T)
    ensures
        CellState::<T>::untouched().version == 0,
        state.set(value).version == next_count(state.version),
        state.take().version == next_count(state.version),
        state.touch().version == next_count(state.version),
        state.version < u32::MAX ==> next_count(state.version) == state.version + 1,
        state.version == u32::MAX ==> next_count(state.version) == 1,
        next_count(state.version) != 0,
{
}

/// Every change leaves a cell well-formed: only a cell at version `0` must be
/// empty, and no change leads back to version `0`.
pub proof fn lemma_changes_keep_wf<T>(state: CellState<T>, value: T)
    ensures
        CellState::<T>::untouched().wf(),
        state.set(value).wf(),
        state.take().wf(),
        state.touch().wf(),
{
}

/// Round trip: what was `set` is what `take` hands back, nothing is left for
/// a later `get`, and two changes were counted.
pub proof fn lemma_set_take_round_trip<T>(state: CellState<T>, value: T)
    ensures
        state.set(value).value == Some(value),
        state.set(value).take().value is None,
        state.set(value).take().version == next_count(next_count(state.version)),
{
}

} // verus!

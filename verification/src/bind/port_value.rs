//! The shared storage behind bound ports, and the guards that give access to it.

use crate::any_port_value::{
    erase, erased_filled, peek, peek_mut, same_type_id, type_id_of, AnyPortValue, ErasedValue,
};
use crate::error::Error;
use crate::sequence_number::{next_count, SequenceNumber};
use crate::sync::{lock_new, lock_read, lock_try_read, lock_try_write, lock_write};
use core::any::TypeId;
use core::marker::PhantomData;
use spin::relax::Spin;
use spin::rwlock::{RwLock, RwLockReadGuard, RwLockWriteGuard};
use std::sync::Arc;
use vstd::prelude::*;

verus! {

/// What is found when a value of a wanted type is looked for in a slot.
#[derive(Clone, Copy, Debug, PartialEq, Eq, Structural)]
pub enum Content {
    /// The slot was made for another type.
    OtherType,
    /// The slot is of the wanted type and holds no value.
    Empty,
    /// The slot is of the wanted type and holds a value.
    Filled,
}

impl Content {
    /// What a look at a value shows, where `typed` is the value as one of
    /// the wanted type, or `None` for a value of another type.
    pub open spec fn of<T>(typed: Option<&Option<T>>) -> Content {
        match typed {
            None => Content::OtherType,
            Some(value) => if *value is Some {
                Content::Filled
            } else {
                Content::Empty
            },
        }
    }

    /// Says what a look at a value has shown.
    pub fn found<T>(typed: Option<&Option<T>>) -> (content: Content)
        ensures
            content == Content::of(typed),
    {
        match typed {
            None => Content::OtherType,
            Some(value) => if value.is_some() {
                Content::Filled
            } else {
                Content::Empty
            },
        }
    }
}

/// The value behind a look at a slot, where `typed` is the slot's value as
/// one of the wanted type, or `None` for a value of another type.
pub fn value_of<T>(typed: Option<&Option<T>>) -> (value: Option<&T>)
    ensures
        value is Some <==> Content::of(typed) == Content::Filled,
        value is Some ==> *typed->0 == Some(*value->0),
{
    match typed {
        None => None,
        Some(value) => value.as_ref(),
    }
}

/// The value behind a look at a slot, for writing, where `typed` is the
/// slot's value as one of the wanted type, or `None` for a value of another
/// type. What is written through the reference is the value afterwards.
pub fn value_mut_of<T>(typed: Option<&mut Option<T>>) -> (value: Option<&mut T>)
    ensures
        value is Some <==> typed is Some && *typed->0 is Some,
        value is Some ==> *typed->0 == Some(*value->0) && *final(typed->0) == Some(
            *final(value->0),
        ),
        typed is Some && value is None ==> *final(typed->0) == *typed->0,
{
    match typed {
        None => None,
        Some(value) => value.as_mut(),
    }
}

/// A clone of the value behind a look at a slot, where `typed` is the slot's
/// value as one of the wanted type, or `None` for a value of another type.
pub fn read_typed<T: Clone>(typed: Option<&Option<T>>) -> (r: Result<Option<T>, Error>)
    ensures
        typed is None ==> r == Err::<Option<T>, Error>(Error::WrongDataType),
        typed is Some ==> r is Ok && (r->Ok_0 is Some <==> *typed->0 is Some),
        typed is Some && r->Ok_0 is Some ==> cloned(typed->0->0, r->Ok_0->0),
{
    match typed {
        None => Err(Error::WrongDataType),
        Some(value) => Ok(value.clone()),
    }
}

/// Puts `value` into what a look at a slot for writing has got, and counts
/// the change; `typed` is the slot's value as one of the wanted type, or
/// `None` for a value of another type, for which nothing is done.
pub fn set_typed<T>(typed: Option<&mut Option<T>>, count: &mut SequenceNumber, value: T) -> (r:
    Result<(), Error>)
    ensures
        typed is None ==> r == Err::<(), Error>(Error::WrongDataType) && *final(count) == *old(
            count,
        ),
        typed is Some ==> r is Ok && *final(typed->0) == Some(value) && final(count)@
            == next_count(old(count)@),
{
    match typed {
        None => Err(Error::WrongDataType),
        Some(place) => {
            put(place, count, value);
            Ok(())
        },
    }
}

/// Puts `value` into what a look at a slot for writing has got, counts the
/// change and hands back what was there before; for a value of another type
/// nothing is done.
pub fn replace_typed<T>(
    typed: Option<&mut Option<T>>,
    count: &mut SequenceNumber,
    value: T,
) -> (r: Result<Option<T>, Error>)
    ensures
        typed is None ==> r == Err::<Option<T>, Error>(Error::WrongDataType) && *final(count)
            == *old(count),
        typed is Some ==> r == Ok::<Option<T>, Error>(*typed->0) && *final(typed->0) == Some(
            value,
        ) && final(count)@ == next_count(old(count)@),
{
    match typed {
        None => Err(Error::WrongDataType),
        Some(place) => Ok(exchange(place, count, value)),
    }
}

/// Takes the value out of what a look at a slot for writing has got, and
/// counts the change; for a value of another type nothing is done.
pub fn take_typed<T>(typed: Option<&mut Option<T>>, count: &mut SequenceNumber) -> (r: Result<
    Option<T>,
    Error,
>)
    ensures
        typed is None ==> r == Err::<Option<T>, Error>(Error::WrongDataType) && *final(count)
            == *old(count),
        typed is Some ==> r == Ok::<Option<T>, Error>(*typed->0) && *final(typed->0) is None
            && final(count)@ == next_count(old(count)@),
{
    match typed {
        None => Err(Error::WrongDataType),
        Some(place) => Ok(take_out(place, count)),
    }
}

/// Puts `value` into `place` and counts the change.
pub fn put<T>(place: &mut Option<T>, count: &mut SequenceNumber, value: T)
    ensures
        *final(place) == Some(value),
        final(count)@ == next_count(old(count)@),
{
    *place = Some(value);
    count.increment();
}

/// Puts `value` into `place`, counts the change and hands back what was
/// there before.
pub fn exchange<T>(place: &mut Option<T>, count: &mut SequenceNumber, value: T) -> (previous:
    Option<T>)
    ensures
        previous == *old(place),
        *final(place) == Some(value),
        final(count)@ == next_count(old(count)@),
{
    let previous = place.take();
    *place = Some(value);
    count.increment();
    previous
}

/// Takes the value out of `place`, which is empty afterwards, and counts the
/// change.
pub fn take_out<T>(place: &mut Option<T>, count: &mut SequenceNumber) -> (previous: Option<T>)
    ensures
        previous == *old(place),
        *final(place) is None,
        final(count)@ == next_count(old(count)@),
{
    let previous = place.take();
    count.increment();
    previous
}

/// Whether a guard may be handed out for what was found in the slot.
pub open spec fn admission_of(content: Content) -> Result<(), Error> {
    match content {
        Content::OtherType => Err(Error::WrongDataType),
        Content::Empty => Err(Error::NoValueSet),
        Content::Filled => Ok(()),
    }
}

/// Decides whether a guard may be handed out for what was found in the slot:
/// only a value of the wanted type can be guarded.
pub fn admission(content: Content) -> (r: Result<(), Error>)
    ensures
        r == admission_of(content),
{
    match content {
        Content::OtherType => Err(Error::WrongDataType),
        Content::Empty => Err(Error::NoValueSet),
        Content::Filled => Ok(()),
    }
}

/// Whether an attempt to get a guard without waiting succeeds: `acquired`
/// says whether the lock could be had at once, `content` what was then found
/// behind it.
pub open spec fn access_of(acquired: bool, content: Content) -> Result<(), Error> {
    if acquired {
        admission_of(content)
    } else {
        Err(Error::IsLocked)
    }
}

/// Decides whether an attempt to get a guard without waiting succeeds.
pub fn access(acquired: bool, content: Content) -> (r: Result<(), Error>)
    ensures
        r == access_of(acquired, content),
{
    if acquired {
        admission(content)
    } else {
        Err(Error::IsLocked)
    }
}

/// An attempt to get a guard fails with [`Error::IsLocked`] if, and only if,
/// the lock could not be had, whatever is behind it; once the lock can be
/// had, the attempt succeeds on a value of the wanted type, and what else it
/// says is about the value alone.
pub proof fn lemma_is_locked_without_the_lock(acquired: bool, content: Content)
    ensures
        access_of(acquired, content) == Err::<(), Error>(Error::IsLocked) <==> !acquired,
        acquired ==> access_of(acquired, content) == admission_of(content),
        acquired && content == Content::Filled ==> access_of(acquired, content) is Ok,
        access_of(acquired, content) is Ok ==> acquired && content == Content::Filled,
{
}

/// The version that a write access leaves behind: the successor of the one it
/// found if the value was handed out for writing at least once, the same one
/// otherwise.
pub open spec fn version_after_access(found: u32, modified: bool) -> u32 {
    if modified {
        next_count(found)
    } else {
        found
    }
}

/// A write access that handed the value out for writing leaves the version
/// at the successor of the one it found, which is never `0`; the mark of a
/// guard is set by the first handing out and stays, so that it does not
/// matter how often the value was handed out. A write access that never
/// handed the value out leaves the version as it was.
pub proof fn lemma_write_access_counts_once(found: u32)
    ensures
        version_after_access(found, true) == next_count(found),
        version_after_access(found, true) != 0,
        found < u32::MAX ==> version_after_access(found, true) == found + 1,
        found == u32::MAX ==> version_after_access(found, true) == 1,
        version_after_access(found, false) == found,
{
}

/// What the lock of a shared cell protects: the value, with its type hidden,
/// and the count of its changes.
#[derive(Debug)]
pub struct Slot {
    value: ErasedValue,
    sequence_number: SequenceNumber,
}

impl Slot {
    /// The count of changes so far.
    pub closed spec fn version(&self) -> u32 {
        self.sequence_number@
    }

    /// The value with its type hidden.
    pub closed spec fn erased(&self) -> ErasedValue {
        self.value
    }

    /// Whether the slot holds a value, of whatever type.
    pub open spec fn filled(&self) -> bool {
        erased_filled(self.erased())
    }

    /// A slot that was never written holds nothing.
    pub open spec fn wf(&self) -> bool {
        self.version() == 0 ==> !self.filled()
    }

    /// An empty slot for values of type `T`, never written.
    pub fn empty<T: AnyPortValue>() -> (slot: Self)
        ensures
            slot.version() == 0,
            !slot.filled(),
            slot.wf(),
    {
        Slot { value: erase::<T>(None), sequence_number: SequenceNumber::new() }
    }

    /// A slot that starts with `value`, which counts as its first change.
    pub fn with_value<T: AnyPortValue>(value: T) -> (slot: Self)
        ensures
            slot.version() == 1,
            slot.filled(),
            slot.wf(),
    {
        let mut sequence_number = SequenceNumber::new();
        sequence_number.increment();
        Slot { value: erase::<T>(Some(value)), sequence_number }
    }

    /// The count of changes so far.
    pub fn sequence_number(&self) -> (n: u32)
        ensures
            n == self.version(),
    {
        self.sequence_number.value()
    }

    /// Looks for a value of type `T`.
    pub fn content<T: AnyPortValue>(&self) -> (content: Content)
        ensures
            content == Content::Filled ==> self.filled(),
            content == Content::Empty ==> !self.filled(),
    {
        Content::found(peek::<T>(&self.value))
    }

    /// A reference to the value, if the slot holds one of type `T`.
    pub fn value<T: AnyPortValue>(&self) -> (value: Option<&T>)
        ensures
            value is Some ==> self.filled(),
    {
        value_of(peek::<T>(&self.value))
    }

    /// A reference to the value for writing, if the slot holds one of type
    /// `T`. The count is left alone: whoever writes through the reference
    /// accounts for it.
    pub fn value_mut<T: AnyPortValue>(&mut self) -> (value: Option<&mut T>)
        ensures
            final(self).version() == old(self).version(),
            final(self).filled() == old(self).filled(),
            value is Some ==> old(self).filled(),
    {
        value_mut_of(peek_mut::<T>(&mut self.value))
    }

    /// A clone of the value. The slot is left as it is.
    ///
    /// Fails with [`Error::WrongDataType`], and only with it, if the slot was
    /// made for another type than `T`.
    pub fn get<T: AnyPortValue + Clone>(&self) -> (r: Result<Option<T>, Error>)
        ensures
            r is Err ==> r == Err::<Option<T>, Error>(Error::WrongDataType),
            r is Ok ==> (r->Ok_0 is Some) == self.filled(),
    {
        read_typed(peek::<T>(&self.value))
    }

    /// Puts `value` into the slot and counts the change.
    ///
    /// Fails with [`Error::WrongDataType`], and only with it, if the slot was
    /// made for another type than `T`; the slot is then left as it is.
    pub fn set<T: AnyPortValue>(&mut self, value: T) -> (r: Result<(), Error>)
        ensures
            r is Ok ==> final(self).version() == next_count(old(self).version())
                && final(self).filled(),
            r is Err ==> r == Err::<(), Error>(Error::WrongDataType) && *final(self) == *old(self),
            old(self).wf() ==> final(self).wf(),
    {
        set_typed(peek_mut::<T>(&mut self.value), &mut self.sequence_number, value)
    }

    /// Puts `value` into the slot, counts the change and hands back what was
    /// there before.
    ///
    /// Fails with [`Error::WrongDataType`], and only with it, if the slot was
    /// made for another type than `T`; the slot is then left as it is.
    pub fn replace<T: AnyPortValue>(&mut self, value: T) -> (r: Result<Option<T>, Error>)
        ensures
            r is Ok ==> final(self).version() == next_count(old(self).version())
                && final(self).filled()
                && (r->Ok_0 is Some) == old(self).filled(),
            r is Err ==> r == Err::<Option<T>, Error>(Error::WrongDataType) && *final(self)
                == *old(self),
            old(self).wf() ==> final(self).wf(),
    {
        replace_typed(peek_mut::<T>(&mut self.value), &mut self.sequence_number, value)
    }

    /// Takes the value out of the slot, which is empty afterwards, and counts
    /// the change.
    ///
    /// Fails with [`Error::WrongDataType`], and only with it, if the slot was
    /// made for another type than `T`; the slot is then left as it is.
    pub fn take<T: AnyPortValue>(&mut self) -> (r: Result<Option<T>, Error>)
        ensures
            r is Ok ==> final(self).version() == next_count(old(self).version())
                && !final(self).filled()
                && (r->Ok_0 is Some) == old(self).filled(),
            r is Err ==> r == Err::<Option<T>, Error>(Error::WrongDataType) && *final(self)
                == *old(self),
            old(self).wf() ==> final(self).wf(),
    {
        take_typed(peek_mut::<T>(&mut self.value), &mut self.sequence_number)
    }

    /// Ends a write access: counts one change if the value was handed out for
    /// writing, however often, and none if it was not.
    pub fn finish_access(&mut self, modified: bool)
        ensures
            final(self).version() == version_after_access(old(self).version(), modified),
            final(self).erased() == old(self).erased(),
            old(self).wf() ==> final(self).wf(),
        opens_invariants none
        no_unwind
    {
        if modified {
            self.sequence_number.increment();
        }
    }
}

/// The slot that a read guard on a shared cell gives access to. No writer
/// gets in as long as the guard lives, so it is one slot at every look
/// through the guard.
pub uninterp spec fn seen_slot(guard: RwLockReadGuard<'static, Slot, Spin>) -> Slot;

/// The slot that a write guard on a shared cell gives access to. Nobody else
/// gets in as long as the guard lives, so the slot is what was found when the
/// lock was taken and what was written through the guard since.
pub uninterp spec fn held_slot(guard: RwLockWriteGuard<'static, Slot, Spin>) -> Slot;

/// `Deref` of a read guard, for the slot of a shared cell: the contract
/// claims that the slot behind the lock is the one that the guard stands
/// for, and that the call neither unwinds nor opens an invariant.
#[verifier::external_body]
fn slot_seen<'g, 'a>(guard: &'g RwLockReadGuard<'a, Slot, Spin>) -> (slot: &'g Slot)
    ensures
        *slot == seen_slot(*guard),
    opens_invariants none
    no_unwind
{
    &**guard
}

/// `Deref` of a write guard, for the slot of a shared cell: the contract
/// claims that the slot behind the lock is the one that the guard stands
/// for, and that the call neither unwinds nor opens an invariant.
#[verifier::external_body]
fn slot_held<'g, 'a>(guard: &'g RwLockWriteGuard<'a, Slot, Spin>) -> (slot: &'g Slot)
    ensures
        *slot == held_slot(*guard),
    opens_invariants none
    no_unwind
{
    &**guard
}

/// `DerefMut` of a write guard, for the slot of a shared cell: the contract
/// claims that the slot behind the lock is the one that the guard stands
/// for, that what is written through the reference is the slot that the
/// guard stands for afterwards, and that the call neither unwinds nor opens
/// an invariant.
#[verifier::external_body]
fn slot_held_mut<'g, 'a>(guard: &'g mut RwLockWriteGuard<'a, Slot, Spin>) -> (slot: &'g mut Slot)
    ensures
        *slot == held_slot(*old(guard)),
        held_slot(*final(guard)) == *final(slot),
    opens_invariants none
    no_unwind
{
    &mut **guard
}

/// A slot behind a reader-writer lock, with the identity of the type it was
/// made for. Ports share it by reference count.
#[derive(Debug)]
pub struct SharedCell {
    type_id: TypeId,
    lock: RwLock<Slot, Spin>,
}

/// The shared handle of a cell. Ports that hold clones of one handle observe
/// the same value.
pub type PortValuePtr = Arc<SharedCell>;

impl SharedCell {
    /// The identity of the type that the cell was made for.
    pub closed spec fn value_type(&self) -> TypeId {
        self.type_id
    }

    /// A new cell for values of type `T`, empty and never written.
    pub fn new<T: AnyPortValue>() -> (cell: PortValuePtr) {
        Arc::new(SharedCell { type_id: type_id_of::<T>(), lock: lock_new(Slot::empty::<T>()) })
    }

    /// A new cell that starts with `value`, at version `1`.
    pub fn with_value<T: AnyPortValue>(value: T) -> (cell: PortValuePtr) {
        Arc::new(SharedCell { type_id: type_id_of::<T>(), lock: lock_new(Slot::with_value(value)) })
    }

    /// Whether the cell was made for values of the type with the identity
    /// `wanted`.
    pub fn has_type(&self, wanted: &TypeId) -> (b: bool)
        ensures
            b == (self.value_type() == *wanted),
    {
        same_type_id(&self.type_id, wanted)
    }

    /// Whether the cell was made for values of type `T`.
    pub fn is<T: AnyPortValue>(&self) -> (b: bool) {
        let wanted = type_id_of::<T>();
        self.has_type(&wanted)
    }

    /// Whether both cells were made for values of the same type.
    pub fn same_type(&self, other: &SharedCell) -> (b: bool)
        ensures
            b == (self.value_type() == other.value_type()),
    {
        same_type_id(&self.type_id, &other.type_id)
    }

    /// The count of changes at the time of the call. Waits while the cell is
    /// locked for writing.
    pub fn sequence_number(&self) -> (n: u32) {
        let guard = lock_read(&self.lock);
        slot_seen(&guard).sequence_number()
    }

    /// A clone of the value at the time of the call. Waits while the cell is
    /// locked for writing.
    pub fn get<T: AnyPortValue + Clone>(&self) -> (r: Result<Option<T>, Error>)
        ensures
            r is Err ==> r == Err::<Option<T>, Error>(Error::WrongDataType),
    {
        let guard = lock_read(&self.lock);
        slot_seen(&guard).get::<T>()
    }

    /// Puts `value` into the cell. Waits while the cell is locked.
    pub fn set<T: AnyPortValue>(&self, value: T) -> (r: Result<(), Error>)
        ensures
            r is Err ==> r == Err::<(), Error>(Error::WrongDataType),
    {
        let mut guard = lock_write(&self.lock);
        slot_held_mut(&mut guard).set(value)
    }

    /// Puts `value` into the cell and hands back what was there before. Waits
    /// while the cell is locked.
    pub fn replace<T: AnyPortValue>(&self, value: T) -> (r: Result<Option<T>, Error>)
        ensures
            r is Err ==> r == Err::<Option<T>, Error>(Error::WrongDataType),
    {
        let mut guard = lock_write(&self.lock);
        slot_held_mut(&mut guard).replace(value)
    }

    /// Takes the value out of the cell. Waits while the cell is locked.
    pub fn take<T: AnyPortValue>(&self) -> (r: Result<Option<T>, Error>)
        ensures
            r is Err ==> r == Err::<Option<T>, Error>(Error::WrongDataType),
    {
        let mut guard = lock_write(&self.lock);
        slot_held_mut(&mut guard).take::<T>()
    }
}

/// Read access to the value of a cell. Until the guard is dropped, a read
/// lock is held on the cell.
#[must_use]
pub struct PortValueReadGuard<'a, T> {
    guard: RwLockReadGuard<'a, Slot, Spin>,
    marker: PhantomData<T>,
}

impl<'a, T: AnyPortValue> PortValueReadGuard<'a, T> {
    /// The slot that the guard gives access to.
    pub closed spec fn seen(&self) -> Slot {
        seen_slot(self.guard)
    }

    /// Guards the slot behind an acquired lock, if it holds a value of type
    /// `T`. An empty slot is refused with [`Error::NoValueSet`], a slot for
    /// another type with [`Error::WrongDataType`].
    pub fn guard_content(guard: RwLockReadGuard<'a, Slot, Spin>) -> (r: Result<Self, Error>)
        ensures
            r is Ok ==> r->Ok_0.seen() == seen_slot(guard) && r->Ok_0.seen().filled(),
            r is Err ==> r->Err_0 == Error::WrongDataType || r->Err_0 == Error::NoValueSet,
            r is Err && r->Err_0 == Error::NoValueSet ==> !seen_slot(guard).filled(),
    {
        Self::from_attempt(Some(guard))
    }

    /// A read guard on the value of `cell`. Waits while the cell is locked for
    /// writing.
    ///
    /// Fails with [`Error::WrongDataType`] if the cell was made for another
    /// type than `T`, and with [`Error::NoValueSet`] if it holds no value.
    pub fn new(cell: &'a SharedCell) -> (r: Result<Self, Error>)
        ensures
            r is Ok ==> r->Ok_0.seen().filled(),
            r is Err ==> r->Err_0 == Error::WrongDataType || r->Err_0 == Error::NoValueSet,
    {
        Self::guard_content(lock_read(&cell.lock))
    }

    /// A read guard on the value of `cell`, without waiting.
    ///
    /// Fails with [`Error::IsLocked`] if the cell is locked for writing, with
    /// [`Error::WrongDataType`] if it was made for another type than `T`, and
    /// with [`Error::NoValueSet`] if it holds no value.
    pub fn try_new(cell: &'a SharedCell) -> (r: Result<Self, Error>)
        ensures
            r is Ok ==> r->Ok_0.seen().filled(),
            r is Err ==> r->Err_0 == Error::IsLocked || r->Err_0 == Error::WrongDataType
                || r->Err_0 == Error::NoValueSet,
    {
        Self::from_attempt(lock_try_read(&cell.lock))
    }

    /// Guards what an attempt to lock has got, as [`access`] decides. The
    /// attempt got nothing if, and only if, the lock was held against it, and
    /// that alone is what [`Error::IsLocked`] says; a guard that was got is
    /// kept for a filled slot of the type `T` and given up otherwise.
    pub fn from_attempt(attempt: Option<RwLockReadGuard<'a, Slot, Spin>>) -> (r: Result<
        Self,
        Error,
    >)
        ensures
            attempt is None ==> r is Err && r->Err_0 == Error::IsLocked,
            attempt is Some ==> {
                &&& r is Ok ==> r->Ok_0.seen() == seen_slot(attempt->0) && r->Ok_0.seen().filled()
                &&& r is Err ==> r->Err_0 == Error::WrongDataType || r->Err_0
                    == Error::NoValueSet
                &&& r is Err && r->Err_0 == Error::NoValueSet ==> !seen_slot(attempt->0).filled()
            },
    {
        let content = match &attempt {
            Some(guard) => slot_seen(guard).content::<T>(),
            None => Content::OtherType,
        };
        match access(attempt.is_some(), content) {
            Err(e) => Err(e),
            Ok(()) => match attempt {
                Some(guard) => Ok(PortValueReadGuard { guard, marker: PhantomData }),
                None => {
                    proof {
                        assert(false);
                    }
                    Err(Error::IsLocked)
                },
            },
        }
    }

    /// The guarded value. It is there for as long as the guard lives.
    pub fn value(&self) -> (value: Option<&T>)
        ensures
            value is Some ==> self.seen().filled(),
    {
        slot_seen(&self.guard).value::<T>()
    }

    /// The count of changes of the guarded value.
    pub fn sequence_number(&self) -> (n: u32)
        ensures
            n == self.seen().version(),
    {
        slot_seen(&self.guard).sequence_number()
    }
}

/// Write access to the value of a cell. Until the guard is dropped, a write
/// lock is held on the cell. However often the value is handed out for
/// writing, the drop counts a single change.
#[must_use]
pub struct PortValueWriteGuard<'a, T> {
    guard: RwLockWriteGuard<'a, Slot, Spin>,
    modified: bool,
    marker: PhantomData<T>,
}

impl<'a, T> PortValueWriteGuard<'a, T> {
    /// Whether the value was handed out for writing.
    pub closed spec fn modified(&self) -> bool {
        self.modified
    }

    /// The slot that the guard gives access to.
    pub closed spec fn held(&self) -> Slot {
        held_slot(self.guard)
    }
}

impl<'a, T: AnyPortValue> PortValueWriteGuard<'a, T> {
    /// Guards the slot behind an acquired lock, if it holds a value of type
    /// `T`. An empty slot is refused with [`Error::NoValueSet`], a slot for
    /// another type with [`Error::WrongDataType`].
    pub fn guard_content(guard: RwLockWriteGuard<'a, Slot, Spin>) -> (r: Result<Self, Error>)
        ensures
            r is Ok ==> r->Ok_0.held() == held_slot(guard) && r->Ok_0.held().filled()
                && !r->Ok_0.modified(),
            r is Err ==> r->Err_0 == Error::WrongDataType || r->Err_0 == Error::NoValueSet,
            r is Err && r->Err_0 == Error::NoValueSet ==> !held_slot(guard).filled(),
    {
        Self::from_attempt(Some(guard))
    }

    /// A write guard on the value of `cell`. Waits while the cell is locked.
    ///
    /// Fails with [`Error::WrongDataType`] if the cell was made for another
    /// type than `T`, and with [`Error::NoValueSet`] if it holds no value.
    pub fn new(cell: &'a SharedCell) -> (r: Result<Self, Error>)
        ensures
            r is Ok ==> r->Ok_0.held().filled() && !r->Ok_0.modified(),
            r is Err ==> r->Err_0 == Error::WrongDataType || r->Err_0 == Error::NoValueSet,
    {
        Self::guard_content(lock_write(&cell.lock))
    }

    /// A write guard on the value of `cell`, without waiting.
    ///
    /// Fails with [`Error::IsLocked`] if the cell is locked, with
    /// [`Error::WrongDataType`] if it was made for another type than `T`, and
    /// with [`Error::NoValueSet`] if it holds no value.
    pub fn try_new(cell: &'a SharedCell) -> (r: Result<Self, Error>)
        ensures
            r is Ok ==> r->Ok_0.held().filled() && !r->Ok_0.modified(),
            r is Err ==> r->Err_0 == Error::IsLocked || r->Err_0 == Error::WrongDataType
                || r->Err_0 == Error::NoValueSet,
    {
        Self::from_attempt(lock_try_write(&cell.lock))
    }

    /// Guards what an attempt to lock has got, as [`access`] decides. The
    /// attempt got nothing if, and only if, the lock was held against it, and
    /// that alone is what [`Error::IsLocked`] says; a guard that was got is
    /// kept for a filled slot of the type `T` and given up otherwise.
    pub fn from_attempt(attempt: Option<RwLockWriteGuard<'a, Slot, Spin>>) -> (r: Result<
        Self,
        Error,
    >)
        ensures
            attempt is None ==> r is Err && r->Err_0 == Error::IsLocked,
            attempt is Some ==> {
                &&& r is Ok ==> r->Ok_0.held() == held_slot(attempt->0) && r->Ok_0.held().filled()
                &&& r is Err ==> r->Err_0 == Error::WrongDataType || r->Err_0
                    == Error::NoValueSet
                &&& r is Err && r->Err_0 == Error::NoValueSet ==> !held_slot(attempt->0).filled()
            },
            r is Ok ==> !r->Ok_0.modified(),
    {
        let content = match &attempt {
            Some(guard) => slot_held(guard).content::<T>(),
            None => Content::OtherType,
        };
        match access(attempt.is_some(), content) {
            Err(e) => Err(e),
            Ok(()) => match attempt {
                Some(guard) => Ok(
                    PortValueWriteGuard { guard, modified: false, marker: PhantomData },
                ),
                None => {
                    proof {
                        assert(false);
                    }
                    Err(Error::IsLocked)
                },
            },
        }
    }

    /// The guarded value. It is there for as long as the guard lives.
    pub fn value(&self) -> (value: Option<&T>)
        ensures
            value is Some ==> self.held().filled(),
    {
        slot_held(&self.guard).value::<T>()
    }

    /// The guarded value, for writing. The guard remembers that it was handed
    /// out; the change is counted when the guard is dropped.
    pub fn value_mut(&mut self) -> (value: Option<&mut T>)
        ensures
            final(self).modified(),
            final(self).held().version() == old(self).held().version(),
            final(self).held().filled() == old(self).held().filled(),
            value is Some ==> old(self).held().filled(),
    {
        self.modified = true;
        slot_held_mut(&mut self.guard).value_mut::<T>()
    }

    /// Whether the value was handed out for writing.
    pub fn is_modified(&self) -> (b: bool)
        ensures
            b == self.modified(),
    {
        self.modified
    }
}

impl<'a, T> Drop for PortValueWriteGuard<'a, T> {
    /// Ends the write access: one change is counted if the value was handed
    /// out for writing, however often, and none if it was not. The value is
    /// left as it is.
    fn drop(&mut self)
        ensures
            final(self).held().version() == version_after_access(
                old(self).held().version(),
                old(self).modified(),
            ),
            final(self).held().erased() == old(self).held().erased(),
        opens_invariants none
        no_unwind
    {
        slot_held_mut(&mut self.guard).finish_access(self.modified);
    }
}

} // verus!

//! Read and write guards on the value of a typed port.

use crate::bind::port_value::{access, version_after_access, Content};
use crate::error::Error;
use crate::port_value::PortValue;
use crate::sync::{
    lock_read, lock_try_read, lock_try_write, lock_write, read_guard_ref, write_guard_mut,
    write_guard_ref,
};
use spin::relax::Spin;
use spin::rwlock::{RwLock, RwLockReadGuard, RwLockWriteGuard};
use vstd::prelude::*;

verus! {

/// What a guard finds in a cell that is of its own type.
pub open spec fn content_of<T>(cell: PortValue<T>) -> Content {
    if cell.content() is Some {
        Content::Filled
    } else {
        Content::Empty
    }
}

/// Looks at what a cell holds.
pub fn content<T>(cell: &PortValue<T>) -> (found: Content)
    ensures
        found == content_of(*cell),
{
    if cell.is_some() {
        Content::Filled
    } else {
        Content::Empty
    }
}

/// Ends a write access to `cell`: counts one change if the value was handed
/// out for writing, however often, and none if it was not. The value stays.
pub fn finish_access<T>(cell: &mut PortValue<T>, modified: bool)
    ensures
        final(cell).version() == version_after_access(old(cell).version(), modified),
        final(cell).content() == old(cell).content(),
    opens_invariants none
    no_unwind
{
    if modified {
        cell.touch();
    }
}

/// Read access to the value of a typed cell. Until the guard is dropped, a
/// read lock is held on the cell.
#[must_use]
#[verifier::reject_recursive_types(T)]
pub struct PortReadGuard<'a, T> {
    guard: RwLockReadGuard<'a, PortValue<T>, Spin>,
}

impl<'a, T> PortReadGuard<'a, T> {
    /// Guards the cell behind an acquired lock, if it holds a value. An empty
    /// cell is refused with [`Error::NoValueSet`].
    pub fn guard_content(guard: RwLockReadGuard<'a, PortValue<T>, Spin>) -> (r: Result<
        Self,
        Error,
    >)
        ensures
            r is Err ==> r->Err_0 == Error::NoValueSet,
    {
        Self::from_attempt(Some(guard))
    }

    /// A read guard on the value of `cell`. Waits while the cell is locked for
    /// writing.
    ///
    /// Fails with [`Error::NoValueSet`], and only with it, if the cell holds
    /// no value.
    pub fn new(cell: &'a RwLock<PortValue<T>, Spin>) -> (r: Result<Self, Error>)
        ensures
            r is Err ==> r->Err_0 == Error::NoValueSet,
    {
        Self::guard_content(lock_read(cell))
    }

    /// A read guard on the value of `cell`, without waiting.
    ///
    /// Fails with [`Error::IsLocked`] if the cell is locked for writing, and
    /// with [`Error::NoValueSet`] if it holds no value.
    pub fn try_new(cell: &'a RwLock<PortValue<T>, Spin>) -> (r: Result<Self, Error>)
        ensures
            r is Err ==> r->Err_0 == Error::IsLocked || r->Err_0 == Error::NoValueSet,
    {
        Self::from_attempt(lock_try_read(cell))
    }

    /// Guards what an attempt to lock has got, as [`access`] decides. The
    /// attempt got nothing if, and only if, the lock was held against it, and
    /// that alone is what [`Error::IsLocked`] says; a guard that was got is
    /// kept for a filled cell and given up for an empty one.
    pub fn from_attempt(attempt: Option<RwLockReadGuard<'a, PortValue<T>, Spin>>) -> (r: Result<
        Self,
        Error,
    >)
        ensures
            attempt is None ==> r is Err && r->Err_0 == Error::IsLocked,
            attempt is Some && r is Err ==> r->Err_0 == Error::NoValueSet,
    {
        let found = match &attempt {
            Some(guard) => content(read_guard_ref(guard)),
            None => Content::Empty,
        };
        match access(attempt.is_some(), found) {
            Err(e) => Err(e),
            Ok(()) => match attempt {
                Some(guard) => Ok(PortReadGuard { guard }),
                None => {
                    proof {
                        assert(false);
                    }
                    Err(Error::IsLocked)
                },
            },
        }
    }

    /// The guarded value. It is there for as long as the guard lives.
    pub fn value(&self) -> (value: Option<&T>) {
        read_guard_ref(&self.guard).as_ref()
    }

    /// The count of changes of the guarded value.
    pub fn sequence_number(&self) -> (n: u32) {
        read_guard_ref(&self.guard).sequence_number()
    }
}

/// Write access to the value of a typed cell. Until the guard is dropped, a
/// write lock is held on the cell. However often the value is handed out for
/// writing, the drop counts a single change.
#[must_use]
#[verifier::reject_recursive_types(T)]
pub struct PortWriteGuard<'a, T> {
    guard: RwLockWriteGuard<'a, PortValue<T>, Spin>,
    modified: bool,
}

impl<'a, T> PortWriteGuard<'a, T> {
    /// Whether the value was handed out for writing.
    pub closed spec fn modified(&self) -> bool {
        self.modified
    }

    /// Guards the cell behind an acquired lock, if it holds a value. An empty
    /// cell is refused with [`Error::NoValueSet`].
    pub fn guard_content(guard: RwLockWriteGuard<'a, PortValue<T>, Spin>) -> (r: Result<
        Self,
        Error,
    >)
        ensures
            r is Err ==> r->Err_0 == Error::NoValueSet,
            r is Ok ==> !r->Ok_0.modified(),
    {
        Self::from_attempt(Some(guard))
    }

    /// A write guard on the value of `cell`. Waits while the cell is locked.
    ///
    /// Fails with [`Error::NoValueSet`], and only with it, if the cell holds
    /// no value.
    pub fn new(cell: &'a RwLock<PortValue<T>, Spin>) -> (r: Result<Self, Error>)
        ensures
            r is Err ==> r->Err_0 == Error::NoValueSet,
            r is Ok ==> !r->Ok_0.modified(),
    {
        Self::guard_content(lock_write(cell))
    }

    /// A write guard on the value of `cell`, without waiting.
    ///
    /// Fails with [`Error::IsLocked`] if the cell is locked, and with
    /// [`Error::NoValueSet`] if it holds no value.
    pub fn try_new(cell: &'a RwLock<PortValue<T>, Spin>) -> (r: Result<Self, Error>)
        ensures
            r is Err ==> r->Err_0 == Error::IsLocked || r->Err_0 == Error::NoValueSet,
            r is Ok ==> !r->Ok_0.modified(),
    {
        Self::from_attempt(lock_try_write(cell))
    }

    /// Guards what an attempt to lock has got, as [`access`] decides. The
    /// attempt got nothing if, and only if, the lock was held against it, and
    /// that alone is what [`Error::IsLocked`] says; a guard that was got is
    /// kept for a filled cell and given up for an empty one.
    pub fn from_attempt(attempt: Option<RwLockWriteGuard<'a, PortValue<T>, Spin>>) -> (r: Result<
        Self,
        Error,
    >)
        ensures
            attempt is None ==> r is Err && r->Err_0 == Error::IsLocked,
            attempt is Some && r is Err ==> r->Err_0 == Error::NoValueSet,
            r is Ok ==> !r->Ok_0.modified(),
    {
        let found = match &attempt {
            Some(guard) => content(write_guard_ref(guard)),
            None => Content::Empty,
        };
        match access(attempt.is_some(), found) {
            Err(e) => Err(e),
            Ok(()) => match attempt {
                Some(guard) => Ok(PortWriteGuard { guard, modified: false }),
                None => {
                    proof {
                        assert(false);
                    }
                    Err(Error::IsLocked)
                },
            },
        }
    }

    /// The guarded value. It is there for as long as the guard lives.
    pub fn value(&self) -> (value: Option<&T>) {
        write_guard_ref(&self.guard).as_ref()
    }

    /// The guarded value, for writing. The guard remembers that it was handed
    /// out; the change is counted when the guard is dropped.
    pub fn value_mut(&mut self) -> (value: Option<&mut T>)
        ensures
            final(self).modified(),
    {
        self.modified = true;
        write_guard_mut(&mut self.guard).as_mut()
    }

    /// Whether the value was handed out for writing.
    pub fn is_modified(&self) -> (b: bool)
        ensures
            b == self.modified(),
    {
        self.modified
    }
}

impl<'a, T> Drop for PortWriteGuard<'a, T> {
    /// Ends the write access as [`finish_access`] says.
    fn drop(&mut self)
        opens_invariants none
        no_unwind
    {
        finish_access(write_guard_mut(&mut self.guard), self.modified);
    }
}

} // verus!

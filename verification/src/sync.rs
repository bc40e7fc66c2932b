//! The reader-writer lock that protects a shared port value.
//!
//! The lock is `spin`'s [`RwLock`]. Its state is shared between threads, so
//! nothing is claimed here about what it protects at the time of a call: the
//! functions below hand out access, and the callers are verified for every
//! value they may find behind it.

use spin::relax::Spin;
use spin::rwlock::{RwLock, RwLockReadGuard, RwLockWriteGuard};
use std::sync::Arc;
use vstd::prelude::*;

verus! {

#[verifier::external_type_specification]
#[verifier::external_body]
#[verifier::reject_recursive_types(T)]
#[verifier::reject_recursive_types(R)]
pub struct ExRwLock<T: ?Sized, R>(RwLock<T, R>);

#[verifier::external_type_specification]
#[verifier::external_body]
#[verifier::reject_recursive_types(T)]
#[verifier::reject_recursive_types(R)]
pub struct ExRwLockReadGuard<'a, T: 'a + ?Sized, R>(RwLockReadGuard<'a, T, R>);

#[verifier::external_type_specification]
#[verifier::external_body]
#[verifier::reject_recursive_types(T)]
#[verifier::reject_recursive_types(R)]
pub struct ExRwLockWriteGuard<'a, T: 'a + ?Sized, R>(RwLockWriteGuard<'a, T, R>);

#[verifier::external_type_specification]
#[verifier::external_body]
pub struct ExSpin(Spin);

/// `Arc::clone`: one more handle to the same shared data. The contract claims
/// that the new handle equals the old one: both point to one allocation.
#[verifier::external_body]
pub(crate) fn arc_clone<T>(shared: &Arc<T>) -> (handle: Arc<T>)
    ensures
        handle == *shared,
{
    Arc::clone(shared)
}

/// `RwLock::new`: a new, unlocked lock around `data`. Nothing is claimed of
/// the lock: what it protects is only seen through a guard.
#[verifier::external_body]
pub(crate) fn lock_new<T>(data: T) -> (lock: RwLock<T, Spin>) {
    RwLock::new(data)
}

/// `RwLock::read`: shared access, spinning until no writer holds the lock;
/// while one does, the call does not return. The guard releases the access
/// when it is dropped. Nothing is claimed of what the guard gives access to.
/// (The lock gives up with a panic where more than `usize::MAX / 8` readers
/// hold it at once.)
#[verifier::external_body]
pub(crate) fn lock_read<'a, T>(lock: &'a RwLock<T, Spin>) -> (guard: RwLockReadGuard<'a, T, Spin>) {
    lock.read()
}

/// `RwLock::try_read`: shared access if no writer holds the lock right now,
/// `None` otherwise. It never waits. Which of the two comes back depends on
/// the other holders of the lock, so nothing is claimed of it. (The lock gives
/// up with a panic where more than `usize::MAX / 8` readers hold it at once.)
#[verifier::external_body]
pub(crate) fn lock_try_read<'a, T>(lock: &'a RwLock<T, Spin>) -> (guard: Option<
    RwLockReadGuard<'a, T, Spin>,
>) {
    lock.try_read()
}

/// `RwLock::write`: exclusive access, spinning until nobody else holds the
/// lock; while someone does, the call does not return. The guard releases the
/// access when it is dropped. Nothing is claimed of what the guard gives
/// access to.
#[verifier::external_body]
pub(crate) fn lock_write<'a, T>(lock: &'a RwLock<T, Spin>) -> (guard: RwLockWriteGuard<
    'a,
    T,
    Spin,
>) {
    lock.write()
}

/// `RwLock::try_write`: exclusive access if nobody holds the lock right now,
/// `None` otherwise. It never waits. Which of the two comes back depends on
/// the other holders of the lock, so nothing is claimed of it.
#[verifier::external_body]
pub(crate) fn lock_try_write<'a, T>(lock: &'a RwLock<T, Spin>) -> (guard: Option<
    RwLockWriteGuard<'a, T, Spin>,
>) {
    lock.try_write()
}

/// `Deref` of a read guard: the data behind the lock. The contract claims
/// only that the call neither unwinds nor opens an invariant; what the data
/// is was decided by whoever wrote it last.
#[verifier::external_body]
pub(crate) fn read_guard_ref<'g, 'a, T>(guard: &'g RwLockReadGuard<'a, T, Spin>) -> (data: &'g T)
    opens_invariants none
    no_unwind
{
    &**guard
}

/// `Deref` of a write guard: the data behind the lock. The contract claims
/// only that the call neither unwinds nor opens an invariant.
#[verifier::external_body]
pub(crate) fn write_guard_ref<'g, 'a, T>(guard: &'g RwLockWriteGuard<'a, T, Spin>) -> (data: &'g T)
    opens_invariants none
    no_unwind
{
    &**guard
}

/// `DerefMut` of a write guard: the data behind the lock, for writing. The
/// contract claims only that the call neither unwinds nor opens an invariant.
#[verifier::external_body]
pub(crate) fn write_guard_mut<'g, 'a, T>(guard: &'g mut RwLockWriteGuard<'a, T, Spin>) -> (data:
    &'g mut T)
    opens_invariants none
    no_unwind
{
    &mut **guard
}

} // verus!

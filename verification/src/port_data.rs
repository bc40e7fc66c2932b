//! The name of a typed port and the handle to its value.

use crate::error::Error;
use crate::guards::{PortReadGuard, PortWriteGuard};
use crate::port_value::PortValue;
use crate::sync::{arc_clone, lock_new, lock_read, lock_write, read_guard_ref, write_guard_mut};
use crate::traits::{InOutPort, InPort, OutPort, PortCommons};
use spin::relax::Spin;
use spin::rwlock::RwLock;
use std::sync::Arc;
use vstd::prelude::*;
use vstd::std_specs::cmp::PartialEqSpecImpl;

verus! {

/// The shared handle of a typed cell. Ports that hold clones of one handle
/// observe the same value.
pub type TypedValuePtr<T> = Arc<RwLock<PortValue<T>, Spin>>;

/// A cell of its own, which holds no value and was never written.
pub fn empty_cell<T>() -> (cell: TypedValuePtr<T>) {
    Arc::new(lock_new(PortValue::empty()))
}

/// A cell of its own, which starts with `value` at version `1`.
pub fn filled_cell<T>(value: T) -> (cell: TypedValuePtr<T>) {
    Arc::new(lock_new(PortValue::new(value)))
}

/// The name of a typed port together with the handle to its value.
#[verifier::reject_recursive_types(T)]
pub struct PortData<T> {
    /// The name of the port, unique within what provides the port.
    name: String,
    /// The value of the port with its count of changes.
    value: TypedValuePtr<T>,
}

impl<T> PortData<T> {
    /// The cell that backs the port.
    pub closed spec fn cell(&self) -> TypedValuePtr<T> {
        self.value
    }

    /// The name of the port.
    pub closed spec fn label(&self) -> Seq<char> {
        self.name@
    }

    /// A port under `name` on a cell of its own, which holds no value and was
    /// never written.
    pub fn new(name: &str) -> (port: Self)
        ensures
            port.label() == name@,
    {
        PortData { name: name.to_owned(), value: empty_cell() }
    }

    /// A port under `name` on a cell of its own, which starts with `value` at
    /// sequence number `1`.
    pub fn with_value(name: &str, value: T) -> (port: Self)
        ensures
            port.label() == name@,
    {
        PortData { name: name.to_owned(), value: filled_cell(value) }
    }

    /// A handle to the port's cell.
    pub fn value(&self) -> (ptr: TypedValuePtr<T>)
        ensures
            ptr == self.cell(),
    {
        arc_clone(&self.value)
    }

    /// Makes `value` the cell of this port. The port gives up its own cell,
    /// which lives on with the ports that share it.
    pub fn set_value(&mut self, value: TypedValuePtr<T>)
        ensures
            final(self).cell() == value,
            final(self).label() == old(self).label(),
    {
        self.value = value
    }
}

impl<T> PortCommons for PortData<T> {
    open spec fn port_name(&self) -> Seq<char> {
        self.label()
    }

    fn name(&self) -> (name: String) {
        assert(self.port_name() == self.label());
        self.name.clone()
    }

    fn sequence_number(&self) -> u32 {
        let guard = lock_read(&self.value);
        read_guard_ref(&guard).sequence_number()
    }
}

impl<T> InPort<T> for PortData<T> {
    fn get(&self) -> Option<T> where T: Clone {
        let guard = lock_read(&self.value);
        read_guard_ref(&guard).get()
    }

    fn read(&self) -> (r: Result<PortReadGuard<'_, T>, Error>) {
        PortReadGuard::new(&self.value)
    }

    fn try_read(&self) -> (r: Result<PortReadGuard<'_, T>, Error>) {
        PortReadGuard::try_new(&self.value)
    }

    fn take(&self) -> Option<T> {
        let mut guard = lock_write(&self.value);
        write_guard_mut(&mut guard).take()
    }
}

impl<T> InOutPort<T> for PortData<T> {
    fn replace(&self, value: T) -> Option<T> {
        let mut guard = lock_write(&self.value);
        write_guard_mut(&mut guard).replace(value)
    }
}

impl<T> OutPort<T> for PortData<T> {
    fn set(&self, value: T) {
        let mut guard = lock_write(&self.value);
        write_guard_mut(&mut guard).set(value)
    }

    fn write(&self) -> (r: Result<PortWriteGuard<'_, T>, Error>) {
        PortWriteGuard::new(&self.value)
    }

    fn try_write(&self) -> (r: Result<PortWriteGuard<'_, T>, Error>) {
        PortWriteGuard::try_new(&self.value)
    }
}

impl<T> PartialEq for PortData<T> {
    /// Ports of one type are equal if their names are equal.
    fn eq(&self, other: &Self) -> (equal: bool) {
        self.name == other.name
    }
}

impl<T> PartialEqSpecImpl for PortData<T> {
    open spec fn obeys_eq_spec() -> bool {
        true
    }

    open spec fn eq_spec(&self, other: &Self) -> bool {
        self.label() == other.label()
    }
}

} // verus!

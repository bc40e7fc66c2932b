//! A typed port that can be read and written.

use crate::error::Error;
use crate::guards::{PortReadGuard, PortWriteGuard};
use crate::port_data::{PortData, TypedValuePtr};
use crate::traits::{InOutPort, InPort, OutPort, PortCommons};
use vstd::prelude::*;
use vstd::std_specs::cmp::PartialEqSpecImpl;

verus! {

/// A named port for values of type `T` that can be read and written.
#[verifier::reject_recursive_types(T)]
pub struct InputOutputPort<T>(PortData<T>);

impl<T> InputOutputPort<T> {
    /// The cell that backs the port.
    pub closed spec fn cell(&self) -> TypedValuePtr<T> {
        self.0.cell()
    }

    /// A port under `name` on a cell of its own, which holds no value and was
    /// never written.
    pub fn new(name: &str) -> (port: Self)
        ensures
            port.port_name() == name@,
    {
        InputOutputPort(PortData::new(name))
    }

    /// A port under `name` on a cell of its own, which starts with `value` at
    /// sequence number `1`.
    pub fn with_value(name: &str, value: T) -> (port: Self)
        ensures
            port.port_name() == name@,
    {
        InputOutputPort(PortData::with_value(name, value))
    }

    /// A handle to the port's cell.
    pub fn value(&self) -> (ptr: TypedValuePtr<T>)
        ensures
            ptr == self.cell(),
    {
        self.0.value()
    }

    /// Binds the port to `value`: from now on it observes that cell. The
    /// type of the values is the same by construction.
    pub fn set_value(&mut self, value: TypedValuePtr<T>)
        ensures
            final(self).cell() == value,
            final(self).port_name() == old(self).port_name(),
    {
        self.0.set_value(value)
    }
}

impl<T> PortCommons for InputOutputPort<T> {
    closed spec fn port_name(&self) -> Seq<char> {
        self.0.label()
    }

    fn name(&self) -> (name: String) {
        self.0.name()
    }

    fn sequence_number(&self) -> u32 {
        self.0.sequence_number()
    }
}

impl<T> InPort<T> for InputOutputPort<T> {
    fn get(&self) -> Option<T> where T: Clone {
        self.0.get()
    }

    fn read(&self) -> (r: Result<PortReadGuard<'_, T>, Error>) {
        self.0.read()
    }

    fn try_read(&self) -> (r: Result<PortReadGuard<'_, T>, Error>) {
        self.0.try_read()
    }

    fn take(&self) -> Option<T> {
        self.0.take()
    }
}

impl<T> OutPort<T> for InputOutputPort<T> {
    fn set(&self, value: T) {
        self.0.set(value)
    }

    fn write(&self) -> (r: Result<PortWriteGuard<'_, T>, Error>) {
        self.0.write()
    }

    fn try_write(&self) -> (r: Result<PortWriteGuard<'_, T>, Error>) {
        self.0.try_write()
    }
}

impl<T> InOutPort<T> for InputOutputPort<T> {
    fn replace(&self, value: T) -> Option<T> {
        self.0.replace(value)
    }
}

impl<T> PartialEq for InputOutputPort<T> {
    /// Ports of one type are equal if their names are equal.
    fn eq(&self, other: &Self) -> (equal: bool) {
        self.0 == other.0
    }
}

impl<T> PartialEqSpecImpl for InputOutputPort<T> {
    open spec fn obeys_eq_spec() -> bool {
        true
    }

    open spec fn eq_spec(&self, other: &Self) -> bool {
        self.port_name() == other.port_name()
    }
}

} // verus!

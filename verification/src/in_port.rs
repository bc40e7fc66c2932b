//! A typed port that can be read.

use crate::error::Error;
use crate::guards::{PortReadGuard};
use crate::port_data::{PortData, TypedValuePtr};
use crate::traits::{InPort, PortCommons};
use vstd::prelude::*;
use vstd::std_specs::cmp::PartialEqSpecImpl;

verus! {

/// A named port for values of type `T` that can be read.
#[verifier::reject_recursive_types(T)]
pub struct InputPort<T>(PortData<T>);

impl<T> InputPort<T> {
    /// The cell that backs the port.
    pub closed spec fn cell(&self) -> TypedValuePtr<T> {
        self.0.cell()
    }

    /// A port under `name` on a cell of its own, which holds no value and was
    /// never written.
    pub fn new(name: &str) -> (port: Self)
        ensures
            port.port_name() == name@,
    {
        InputPort(PortData::new(name))
    }

    /// A handle to the port's cell.
    pub fn value(&self) -> (ptr: TypedValuePtr<T>)
        ensures
            ptr == self.cell(),
    {
        self.0.value()
    }

    /// Binds the port to `value`: from now on it observes that cell. The
    /// type of the values is the same by construction.
    pub fn set_value(&mut self, value: TypedValuePtr<T>)
        ensures
            final(self).cell() == value,
            final(self).port_name() == old(self).port_name(),
    {
        self.0.set_value(value)
    }
}

impl<T> PortCommons for InputPort<T> {
    closed spec fn port_name(&self) -> Seq<char> {
        self.0.label()
    }

    fn name(&self) -> (name: String) {
        self.0.name()
    }

    fn sequence_number(&self) -> u32 {
        self.0.sequence_number()
    }
}

impl<T> InPort<T> for InputPort<T> {
    fn get(&self) -> Option<T> where T: Clone {
        self.0.get()
    }

    fn read(&self) -> (r: Result<PortReadGuard<'_, T>, Error>) {
        self.0.read()
    }

    fn try_read(&self) -> (r: Result<PortReadGuard<'_, T>, Error>) {
        self.0.try_read()
    }

    fn take(&self) -> Option<T> {
        self.0.take()
    }
}

impl<T> PartialEq for InputPort<T> {
    /// Ports of one type are equal if their names are equal.
    fn eq(&self, other: &Self) -> (equal: bool) {
        self.0 == other.0
    }
}

impl<T> PartialEqSpecImpl for InputPort<T> {
    open spec fn obeys_eq_spec() -> bool {
        true
    }

    open spec fn eq_spec(&self, other: &Self) -> bool {
        self.port_name() == other.port_name()
    }
}

} // verus!

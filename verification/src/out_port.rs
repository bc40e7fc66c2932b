//! A typed port that can be written.

use crate::error::Error;
use crate::guards::{PortReadGuard, PortWriteGuard};
use crate::port_data::{PortData, TypedValuePtr};
use crate::traits::{InOutPort, InPort, OutPort, PortCommons};
use vstd::prelude::*;
use vstd::std_specs::cmp::PartialEqSpecImpl;

verus! {

/// A named port for values of type `T` that can be written.
#[verifier::reject_recursive_types(T)]
pub struct OutputPort<T>(PortData<T>);

impl<T> OutputPort<T> {
    /// The cell that backs the port.
    pub closed spec fn cell(&self) -> TypedValuePtr<T> {
        self.0.cell()
    }

    /// A port under `name` on a cell of its own, which holds no value and was
    /// never written.
    pub fn new(name: &str) -> (port: Self)
        ensures
            port.port_name() == name@,
    {
        OutputPort(PortData::new(name))
    }

    /// A port under `name` on a cell of its own, which starts with `value` at
    /// sequence number `1`.
    pub fn with_value(name: &str, value: T) -> (port: Self)
        ensures
            port.port_name() == name@,
    {
        OutputPort(PortData::with_value(name, value))
    }

    /// A handle to the port's cell.
    pub fn value(&self) -> (ptr: TypedValuePtr<T>)
        ensures
            ptr == self.cell(),
    {
        self.0.value()
    }

    /// Binds the port to `value`: from now on it observes that cell. The
    /// type of the values is the same by construction.
    pub fn set_value(&mut self, value: TypedValuePtr<T>)
        ensures
            final(self).cell() == value,
            final(self).port_name() == old(self).port_name(),
    {
        self.0.set_value(value)
    }

    /// A read guard on the value, for the one who writes it. Waits while the
    /// value is locked for writing.
    ///
    /// Fails with [`Error::NoValueSet`], and only with it, if the port holds
    /// no value.
    pub fn by_ref(&self) -> (r: Result<PortReadGuard<'_, T>, Error>)
        ensures
            r is Err ==> r->Err_0 == Error::NoValueSet,
    {
        self.0.read()
    }

    /// A read guard on the value, without waiting.
    ///
    /// Fails with [`Error::IsLocked`] if the value is locked for writing, and
    /// with [`Error::NoValueSet`] if the port holds no value.
    pub fn try_by_ref(&self) -> (r: Result<PortReadGuard<'_, T>, Error>)
        ensures
            r is Err ==> r->Err_0 == Error::IsLocked || r->Err_0 == Error::NoValueSet,
    {
        self.0.try_read()
    }

    /// A clone of the value at the time of the call, if there is one.
    pub fn by_copy(&self) -> Option<T> where T: Clone {
        self.0.get()
    }

    /// Takes the value out of the port, which holds none afterwards.
    pub fn by_value(&self) -> Option<T> {
        self.0.take()
    }

    /// Takes the value out of the port, which holds none afterwards.
    pub fn take(&self) -> Option<T> {
        self.0.take()
    }
}

impl<T> PortCommons for OutputPort<T> {
    closed spec fn port_name(&self) -> Seq<char> {
        self.0.label()
    }

    fn name(&self) -> (name: String) {
        self.0.name()
    }

    fn sequence_number(&self) -> u32 {
        self.0.sequence_number()
    }
}

impl<T> OutPort<T> for OutputPort<T> {
    fn set(&self, value: T) {
        self.0.set(value)
    }

    fn write(&self) -> (r: Result<PortWriteGuard<'_, T>, Error>) {
        self.0.write()
    }

    fn try_write(&self) -> (r: Result<PortWriteGuard<'_, T>, Error>) {
        self.0.try_write()
    }
}

impl<T> InOutPort<T> for OutputPort<T> {
    fn replace(&self, value: T) -> Option<T> {
        self.0.replace(value)
    }
}

impl<T> PartialEq for OutputPort<T> {
    /// Ports of one type are equal if their names are equal.
    fn eq(&self, other: &Self) -> (equal: bool) {
        self.0 == other.0
    }
}

impl<T> PartialEqSpecImpl for OutputPort<T> {
    open spec fn obeys_eq_spec() -> bool {
        true
    }

    open spec fn eq_spec(&self, other: &Self) -> bool {
        self.port_name() == other.port_name()
    }
}

} // verus!

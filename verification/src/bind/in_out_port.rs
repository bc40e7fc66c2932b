//! A bound input and output port.

use crate::any_port_value::AnyPortValue;
use crate::bind::port_value::{PortValuePtr, PortValueReadGuard, PortValueWriteGuard, SharedCell};
use crate::bind::{binding_of, cell_after_binding, BindCommons, BindIn, BindInOut, BindOut};
use crate::collections::{lookup, PortCollection};
use crate::error::Error;
use crate::port_variant::PortVariant;
use crate::sync::arc_clone;
use vstd::prelude::*;

verus! {

/// A port that is bound to a shared value and can both read and write it.
#[derive(Debug)]
pub struct BoundInOutPort(PortValuePtr);

impl BoundInOutPort {
    /// The shared cell that backs the port.
    pub closed spec fn cell(&self) -> PortValuePtr {
        self.0
    }

    /// A port for values of type `T` on a cell of its own, which holds no
    /// value and was never written.
    pub fn new<T: AnyPortValue>() -> (port: Self) {
        BoundInOutPort(SharedCell::new::<T>())
    }

    /// A port on a cell of its own, which starts with `value` at sequence
    /// number `1`.
    pub fn with_value<T: AnyPortValue>(value: T) -> (port: Self) {
        BoundInOutPort(SharedCell::with_value(value))
    }

    /// The port's cell.
    pub fn cell_ref(&self) -> (cell: &SharedCell)
        ensures
            *cell == *self.cell(),
    {
        &self.0
    }

    /// Whether the port was made for values of type `T`.
    pub fn is<T: AnyPortValue>(&self) -> (b: bool) {
        self.0.is::<T>()
    }

    /// Makes `value` the cell of this port, if it was made for values of the
    /// same type as the port's own cell. The port gives up its own cell, which
    /// lives on with the ports that share it.
    ///
    /// Fails with [`Error::WrongDataType`], and leaves the port as it is, if
    /// the types differ.
    pub fn set_value(&mut self, value: PortValuePtr) -> (r: Result<(), Error>)
        ensures
            r == binding_of(old(self).cell(), value),
            final(self).cell() == cell_after_binding(old(self).cell(), value),
            r is Err ==> *final(self) == *old(self),
    {
        if self.0.same_type(&value) {
            self.0 = value;
            Ok(())
        } else {
            Err(Error::WrongDataType)
        }
    }

    /// Binds this port to the value of the port `bound`: from now on both
    /// observe the same cell. A port that is bound already is bound anew.
    ///
    /// Fails with [`Error::WrongDataType`], and leaves this port as it is, if
    /// the two ports were made for values of different types.
    pub fn use_from_bound<B: BindCommons>(&mut self, bound: &B) -> (r: Result<(), Error>)
        ensures
            r == binding_of(old(self).cell(), bound.shared_cell()),
            final(self).cell() == cell_after_binding(old(self).cell(), bound.shared_cell()),
            r is Err ==> *final(self) == *old(self),
    {
        self.set_value(bound.value())
    }

    /// Takes the value out of the port's cell and gives the port up.
    ///
    /// Fails with [`Error::WrongDataType`], and only with it, if the port was
    /// made for another type than `T`.
    pub fn into_inner<T: AnyPortValue>(self) -> (r: Result<Option<T>, Error>)
        ensures
            r is Err ==> r->Err_0 == Error::WrongDataType,
    {
        self.0.take::<T>()
    }
}

impl BindCommons for BoundInOutPort {
    open spec fn shared_cell(&self) -> PortValuePtr {
        self.cell()
    }

    fn use_from_variant(&mut self, variant: &PortVariant) -> (r: Result<(), Error>) {
        self.set_value(variant.value())
    }

    fn use_from_collection<C: PortCollection>(&mut self, name: &str, collection: &C) -> (r: Result<
        (),
        Error,
    >) {
        match collection.find(name) {
            Some(variant) => self.use_from_variant(variant),
            None => Err(Error::OtherNotFound),
        }
    }

    fn bind_to(&mut self, other: &PortVariant) -> (r: Result<(), Error>) {
        self.use_from_variant(other)
    }

    fn sequence_number(&self) -> u32 {
        self.0.sequence_number()
    }

    fn value(&self) -> (ptr: PortValuePtr) {
        assert(self.shared_cell() == self.cell());
        arc_clone(&self.0)
    }
}

impl<T: AnyPortValue> BindIn<T> for BoundInOutPort {
    fn get(&self) -> (r: Result<Option<T>, Error>) where T: Clone {
        self.0.get::<T>()
    }

    fn read(&self) -> (r: Result<PortValueReadGuard<'_, T>, Error>) {
        PortValueReadGuard::new(&self.0)
    }

    fn try_read(&self) -> (r: Result<PortValueReadGuard<'_, T>, Error>) {
        PortValueReadGuard::try_new(&self.0)
    }
}

impl<T: AnyPortValue> BindOut<T> for BoundInOutPort {
    fn set(&mut self, value: T) -> (r: Result<(), Error>) {
        self.0.set(value)
    }

    fn write(&self) -> (r: Result<PortValueWriteGuard<'_, T>, Error>) {
        PortValueWriteGuard::new(&self.0)
    }

    fn try_write(&self) -> (r: Result<PortValueWriteGuard<'_, T>, Error>) {
        PortValueWriteGuard::try_new(&self.0)
    }
}

impl<T: AnyPortValue> BindInOut<T> for BoundInOutPort {
    fn replace(&mut self, value: T) -> (r: Result<Option<T>, Error>) {
        self.0.replace(value)
    }

    fn take(&mut self) -> (r: Result<Option<T>, Error>) {
        self.0.take::<T>()
    }
}

impl Clone for BoundInOutPort {
    /// Another port on the same cell.
    fn clone(&self) -> (port: Self)
        ensures
            port.cell() == self.cell(),
    {
        BoundInOutPort(arc_clone(&self.0))
    }
}

} // verus!

//! Ports that are bound to a shared value, and what can be done with them.

pub mod in_out_port;
pub mod in_port;
pub mod out_port;
pub mod port_value;

use crate::any_port_value::AnyPortValue;
use crate::bind::port_value::{PortValuePtr, PortValueReadGuard, PortValueWriteGuard};
use crate::collections::{lookup, PortCollection};
use crate::error::Error;
use crate::port_variant::PortVariant;
use vstd::prelude::*;

verus! {

/// Whether a port on the cell `own` can adopt the cell `other`: the two must
/// have been made for values of the same type.
pub open spec fn binding_of(own: PortValuePtr, other: PortValuePtr) -> Result<(), Error> {
    if own.value_type() == other.value_type() {
        Ok(())
    } else {
        Err(Error::WrongDataType)
    }
}

/// The cell that a port holds after an attempt to bind it to `other`: the
/// other one where the types match, its own one where they do not.
pub open spec fn cell_after_binding(own: PortValuePtr, other: PortValuePtr) -> PortValuePtr {
    if own.value_type() == other.value_type() {
        other
    } else {
        own
    }
}

/// Binding is sharing: a port that was bound holds the very cell of the port
/// it was bound to, so that whatever is read through one of the two is read
/// from the cell that the other one reads and writes. A binding of ports for
/// values of different types fails and leaves the port on its own cell.
pub proof fn lemma_binding_shares_or_keeps(own: PortValuePtr, other: PortValuePtr)
    ensures
        binding_of(own, other) is Ok <==> own.value_type() == other.value_type(),
        binding_of(own, other) is Ok ==> cell_after_binding(own, other) == other,
        binding_of(own, other) is Err ==> binding_of(own, other) == Err::<(), Error>(
            Error::WrongDataType,
        ) && cell_after_binding(own, other) == own,
{
}

/// Ports that were bound in a chain all hold the cell of the last one: a
/// write through any of them is seen through each of the others.
pub proof fn lemma_binding_chain(first: PortValuePtr, second: PortValuePtr, third: PortValuePtr)
    requires
        binding_of(second, third) is Ok,
        binding_of(first, cell_after_binding(second, third)) is Ok,
    ensures
        cell_after_binding(second, third) == third,
        cell_after_binding(first, cell_after_binding(second, third)) == third,
{
}

/// What every bound port offers.
pub trait BindCommons: Sized {
    /// The shared cell that backs the port.
    spec fn shared_cell(&self) -> PortValuePtr;

    /// Binds this port to the value of the port `variant`: from now on both
    /// observe the same cell. A port that is bound already is bound anew.
    ///
    /// Fails with [`Error::WrongDataType`], and leaves this port as it is, if
    /// the two ports were made for values of different types.
    fn use_from_variant(&mut self, variant: &PortVariant) -> (r: Result<(), Error>)
        ensures
            r == binding_of(old(self).shared_cell(), variant.cell()),
            final(self).shared_cell() == cell_after_binding(
                old(self).shared_cell(),
                variant.cell(),
            ),
            r is Err ==> *final(self) == *old(self),
    ;

    /// Binds this port to the value of the port `name` of `collection`.
    ///
    /// Fails with [`Error::OtherNotFound`] if the collection has no port of
    /// that name, and with [`Error::WrongDataType`] if the two ports were made
    /// for values of different types; this port is then left as it is.
    fn use_from_collection<C: PortCollection>(&mut self, name: &str, collection: &C) -> (r: Result<
        (),
        Error,
    >)
        ensures
            match lookup(collection.entries(), name@) {
                None => r == Err::<(), Error>(Error::OtherNotFound),
                Some(variant) => r == binding_of(old(self).shared_cell(), variant.cell())
                    && final(self).shared_cell() == cell_after_binding(
                    old(self).shared_cell(),
                    variant.cell(),
                ),
            },
            r is Err ==> *final(self) == *old(self),
    ;

    /// Binds this port to the value of the port `other`. It is another name
    /// for [`BindCommons::use_from_variant`].
    fn bind_to(&mut self, other: &PortVariant) -> (r: Result<(), Error>)
        ensures
            r == binding_of(old(self).shared_cell(), other.cell()),
            final(self).shared_cell() == cell_after_binding(old(self).shared_cell(), other.cell()),
            r is Err ==> *final(self) == *old(self),
    ;

    /// The count of changes of the port's value at the time of the call. `0`
    /// says that the port never held a value.
    fn sequence_number(&self) -> u32;

    /// A handle to the port's cell.
    fn value(&self) -> (ptr: PortValuePtr)
        ensures
            ptr == self.shared_cell(),
    ;
}

/// What a readable bound port offers.
pub trait BindIn<T: AnyPortValue>: BindCommons {
    /// A clone of the value, or `None` where the port holds none.
    ///
    /// Fails with [`Error::WrongDataType`], and only with it, if the port was
    /// made for another type than `T`.
    fn get(&self) -> (r: Result<Option<T>, Error>) where T: Clone
        ensures
            r is Err ==> r->Err_0 == Error::WrongDataType,
    ;

    /// A read guard on the value. Waits while the value is locked for writing.
    ///
    /// Fails with [`Error::WrongDataType`] if the port was made for another
    /// type than `T`, and with [`Error::NoValueSet`] if it holds no value.
    fn read(&self) -> (r: Result<PortValueReadGuard<'_, T>, Error>)
        ensures
            r is Err ==> r->Err_0 == Error::WrongDataType || r->Err_0 == Error::NoValueSet,
    ;

    /// A read guard on the value, without waiting.
    ///
    /// Fails as [`BindIn::read`] does, and with [`Error::IsLocked`] if the
    /// value is locked for writing.
    fn try_read(&self) -> (r: Result<PortValueReadGuard<'_, T>, Error>)
        ensures
            r is Err ==> r->Err_0 == Error::IsLocked || r->Err_0 == Error::WrongDataType
                || r->Err_0 == Error::NoValueSet,
    ;
}

/// What a writable bound port offers.
pub trait BindOut<T: AnyPortValue>: BindCommons {
    /// Sets a new value.
    ///
    /// Fails with [`Error::WrongDataType`], and only with it, if the port was
    /// made for another type than `T`.
    fn set(&mut self, value: T) -> (r: Result<(), Error>)
        ensures
            r is Err ==> r->Err_0 == Error::WrongDataType,
            *final(self) == *old(self),
    ;

    /// A write guard on the value. Waits while the value is locked.
    ///
    /// Fails with [`Error::WrongDataType`] if the port was made for another
    /// type than `T`, and with [`Error::NoValueSet`] if it holds no value.
    fn write(&self) -> (r: Result<PortValueWriteGuard<'_, T>, Error>)
        ensures
            r is Err ==> r->Err_0 == Error::WrongDataType || r->Err_0 == Error::NoValueSet,
            r is Ok ==> !r->Ok_0.modified(),
    ;

    /// A write guard on the value, without waiting.
    ///
    /// Fails as [`BindOut::write`] does, and with [`Error::IsLocked`] if the
    /// value is locked.
    fn try_write(&self) -> (r: Result<PortValueWriteGuard<'_, T>, Error>)
        ensures
            r is Err ==> r->Err_0 == Error::IsLocked || r->Err_0 == Error::WrongDataType
                || r->Err_0 == Error::NoValueSet,
            r is Ok ==> !r->Ok_0.modified(),
    ;
}

/// What a bound port offers that is both readable and writable.
pub trait BindInOut<T: AnyPortValue>: BindIn<T> + BindOut<T> {
    /// Sets a new value and hands back the previous one.
    ///
    /// Fails with [`Error::WrongDataType`], and only with it, if the port was
    /// made for another type than `T`.
    fn replace(&mut self, value: T) -> (r: Result<Option<T>, Error>)
        ensures
            r is Err ==> r->Err_0 == Error::WrongDataType,
            *final(self) == *old(self),
    ;

    /// Takes the value out of the port, which holds none afterwards.
    ///
    /// Fails with [`Error::WrongDataType`], and only with it, if the port was
    /// made for another type than `T`.
    fn take(&mut self) -> (r: Result<Option<T>, Error>)
        ensures
            r is Err ==> r->Err_0 == Error::WrongDataType,
            *final(self) == *old(self),
    ;
}

} // verus!

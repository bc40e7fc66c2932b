//! The three kinds of bound ports behind one type.

use crate::any_port_value::AnyPortValue;
use crate::bind::in_out_port::BoundInOutPort;
use crate::bind::in_port::BoundInPort;
use crate::bind::out_port::BoundOutPort;
use crate::bind::port_value::{
    PortValuePtr, PortValueReadGuard, PortValueWriteGuard, SharedCell,
};
use crate::bind::{binding_of, cell_after_binding, BindCommons, BindIn, BindInOut, BindOut};
use crate::collections::{lookup, PortCollection};
use crate::error::Error;
use vstd::prelude::*;

verus! {

/// A bound port of one of the three kinds:
/// - `InBound`: only readable,
/// - `InOutBound`: readable and writable,
/// - `OutBound`: only writable.
///
/// An operation that the kind does not offer fails with
/// [`Error::WrongPortType`].
#[derive(Debug)]
pub enum PortVariant {
    InBound(BoundInPort),
    InOutBound(BoundInOutPort),
    OutBound(BoundOutPort),
}

impl PortVariant {
    /// The shared cell that backs the port.
    pub open spec fn cell(&self) -> PortValuePtr {
        match self {
            PortVariant::InBound(port) => port.cell(),
            PortVariant::InOutBound(port) => port.cell(),
            PortVariant::OutBound(port) => port.cell(),
        }
    }

    /// Whether the port can be read: all kinds but `OutBound`.
    pub open spec fn readable(&self) -> bool {
        !(self is OutBound)
    }

    /// Whether the port can be written: all kinds but `InBound`.
    pub open spec fn writable(&self) -> bool {
        !(self is InBound)
    }

    /// Whether the port's value can be exchanged: only `InOutBound`.
    pub open spec fn exchangeable(&self) -> bool {
        self is InOutBound
    }

    /// Whether `other` is a port of the same kind on the same cell.
    pub open spec fn same_kind_on(&self, other: &PortVariant, cell: PortValuePtr) -> bool {
        &&& other.cell() == cell
        &&& self is InBound <==> other is InBound
        &&& self is InOutBound <==> other is InOutBound
        &&& self is OutBound <==> other is OutBound
    }

    /// An `InBound` port on a cell of its own that starts with `value`.
    pub fn create_inbound<T: AnyPortValue>(value: T) -> (port: Self)
        ensures
            port is InBound,
    {
        PortVariant::InBound(BoundInPort::with_value(value))
    }

    /// An `InOutBound` port on a cell of its own that starts with `value`.
    pub fn create_inoutbound<T: AnyPortValue>(value: T) -> (port: Self)
        ensures
            port is InOutBound,
    {
        PortVariant::InOutBound(BoundInOutPort::with_value(value))
    }

    /// An `OutBound` port on a cell of its own that starts with `value`.
    pub fn create_outbound<T: AnyPortValue>(value: T) -> (port: Self)
        ensures
            port is OutBound,
    {
        PortVariant::OutBound(BoundOutPort::with_value(value))
    }

    /// Whether the port can be read.
    pub fn is_readable(&self) -> (b: bool)
        ensures
            b == self.readable(),
    {
        match self {
            PortVariant::OutBound(_) => false,
            PortVariant::InBound(_) | PortVariant::InOutBound(_) => true,
        }
    }

    /// Whether the port can be written.
    pub fn is_writable(&self) -> (b: bool)
        ensures
            b == self.writable(),
    {
        match self {
            PortVariant::InBound(_) => false,
            PortVariant::OutBound(_) | PortVariant::InOutBound(_) => true,
        }
    }

    /// Whether the port's value can be exchanged.
    pub fn is_exchangeable(&self) -> (b: bool)
        ensures
            b == self.exchangeable(),
    {
        match self {
            PortVariant::InOutBound(_) => true,
            PortVariant::InBound(_) | PortVariant::OutBound(_) => false,
        }
    }

    /// Binds this port to the cell `value`: from now on it observes that
    /// cell. The kind of this port stays.
    ///
    /// Fails with [`Error::WrongDataType`], and leaves this port as it is, if
    /// the cell was made for values of another type than the port's own.
    pub fn set_value(&mut self, value: PortValuePtr) -> (r: Result<(), Error>)
        ensures
            r == binding_of(old(self).cell(), value),
            old(self).same_kind_on(final(self), cell_after_binding(old(self).cell(), value)),
            r is Err ==> *final(self) == *old(self),
    {
        match self {
            PortVariant::InBound(port) => port.set_value(value),
            PortVariant::InOutBound(port) => port.set_value(value),
            PortVariant::OutBound(port) => port.set_value(value),
        }
    }

    /// The port's cell.
    pub fn cell_ref(&self) -> (cell: &SharedCell)
        ensures
            *cell == *self.cell(),
    {
        match self {
            PortVariant::InBound(port) => port.cell_ref(),
            PortVariant::InOutBound(port) => port.cell_ref(),
            PortVariant::OutBound(port) => port.cell_ref(),
        }
    }

    /// A handle to the port's cell.
    pub fn value(&self) -> (ptr: PortValuePtr)
        ensures
            ptr == self.cell(),
    {
        match self {
            PortVariant::InBound(port) => {
                assert(port.shared_cell() == port.cell());
                port.value()
            },
            PortVariant::InOutBound(port) => {
                assert(port.shared_cell() == port.cell());
                port.value()
            },
            PortVariant::OutBound(port) => {
                assert(port.shared_cell() == port.cell());
                port.value()
            },
        }
    }

    /// Binds this port to the value of the port `bound`, whatever the kinds
    /// of the two: from now on both observe the same cell. The kind of this
    /// port stays.
    ///
    /// Fails with [`Error::WrongDataType`], and leaves this port as it is, if
    /// the two ports were made for values of different types.
    pub fn use_from_bound<B: BindCommons>(&mut self, bound: &B) -> (r: Result<(), Error>)
        ensures
            r == binding_of(old(self).cell(), bound.shared_cell()),
            old(self).same_kind_on(
                final(self),
                cell_after_binding(old(self).cell(), bound.shared_cell()),
            ),
            r is Err ==> *final(self) == *old(self),
    {
        match self {
            PortVariant::InBound(port) => port.use_from_bound(bound),
            PortVariant::InOutBound(port) => port.use_from_bound(bound),
            PortVariant::OutBound(port) => port.use_from_bound(bound),
        }
    }

    /// Binds this port to the value of the port `other`.
    ///
    /// Fails with [`Error::WrongDataType`], and leaves this port as it is, if
    /// the two ports were made for values of different types.
    pub fn use_from_variant(&mut self, other: &PortVariant) -> (r: Result<(), Error>)
        ensures
            r == binding_of(old(self).cell(), other.cell()),
            old(self).same_kind_on(final(self), cell_after_binding(old(self).cell(), other.cell())),
            r is Err ==> *final(self) == *old(self),
    {
        match other {
            PortVariant::InBound(bound) => self.use_from_bound(bound),
            PortVariant::InOutBound(bound) => self.use_from_bound(bound),
            PortVariant::OutBound(bound) => self.use_from_bound(bound),
        }
    }

    /// Binds this port to the value of the port `name` of `collection`.
    ///
    /// Fails with [`Error::OtherNotFound`] if the collection has no port of
    /// that name, and with [`Error::WrongDataType`] if the two ports were made
    /// for values of different types; this port is then left as it is.
    pub fn use_from_collection<C: PortCollection>(&mut self, collection: &C, name: &str) -> (r:
        Result<(), Error>)
        ensures
            match lookup(collection.entries(), name@) {
                None => r == Err::<(), Error>(Error::OtherNotFound),
                Some(variant) => r == binding_of(old(self).cell(), variant.cell())
                    && old(self).same_kind_on(
                    final(self),
                    cell_after_binding(old(self).cell(), variant.cell()),
                ),
            },
            r is Err ==> *final(self) == *old(self),
    {
        match collection.find(name) {
            Some(variant) => self.use_from_variant(variant),
            None => Err(Error::OtherNotFound),
        }
    }

    /// Binds this port to the value of the port `other`. It is another name
    /// for [`PortVariant::use_from_variant`].
    pub fn bind_to(&mut self, other: &PortVariant) -> (r: Result<(), Error>)
        ensures
            r == binding_of(old(self).cell(), other.cell()),
            old(self).same_kind_on(final(self), cell_after_binding(old(self).cell(), other.cell())),
            r is Err ==> *final(self) == *old(self),
    {
        self.use_from_variant(other)
    }

    /// A clone of the value, or `None` where the port holds none.
    ///
    /// Fails with [`Error::WrongPortType`] if the port is not readable, else
    /// with [`Error::WrongDataType`] if it was made for another type than `T`.
    pub fn get<T: AnyPortValue + Clone>(&self) -> (r: Result<Option<T>, Error>)
        ensures
            !self.readable() ==> r == Err::<Option<T>, Error>(Error::WrongPortType),
            self.readable() && r is Err ==> r->Err_0 == Error::WrongDataType,
    {
        match self {
            PortVariant::InBound(port) => port.get(),
            PortVariant::InOutBound(port) => port.get(),
            PortVariant::OutBound(_) => Err(Error::WrongPortType),
        }
    }

    /// Whether the port was made for values of type `T`.
    pub fn is<T: AnyPortValue>(&self) -> (b: bool) {
        match self {
            PortVariant::InBound(port) => port.is::<T>(),
            PortVariant::InOutBound(port) => port.is::<T>(),
            PortVariant::OutBound(port) => port.is::<T>(),
        }
    }

    /// A read guard on the value. Waits while the value is locked for writing.
    ///
    /// Fails with [`Error::WrongPortType`] if the port is not readable, else
    /// with [`Error::WrongDataType`] if it was made for another type than `T`,
    /// and with [`Error::NoValueSet`] if it holds no value.
    pub fn read<T: AnyPortValue>(&self) -> (r: Result<PortValueReadGuard<'_, T>, Error>)
        ensures
            !self.readable() ==> r is Err && r->Err_0 == Error::WrongPortType,
            self.readable() && r is Err ==> r->Err_0 == Error::WrongDataType || r->Err_0
                == Error::NoValueSet,
    {
        match self {
            PortVariant::InBound(port) => port.read(),
            PortVariant::InOutBound(port) => port.read(),
            PortVariant::OutBound(_) => Err(Error::WrongPortType),
        }
    }

    /// A read guard on the value, without waiting.
    ///
    /// Fails as [`PortVariant::read`] does, and with [`Error::IsLocked`] if
    /// the value is locked for writing.
    pub fn try_read<T: AnyPortValue>(&self) -> (r: Result<PortValueReadGuard<'_, T>, Error>)
        ensures
            !self.readable() ==> r is Err && r->Err_0 == Error::WrongPortType,
            self.readable() && r is Err ==> r->Err_0 == Error::IsLocked || r->Err_0
                == Error::WrongDataType || r->Err_0 == Error::NoValueSet,
    {
        match self {
            PortVariant::InBound(port) => port.try_read(),
            PortVariant::InOutBound(port) => port.try_read(),
            PortVariant::OutBound(_) => Err(Error::WrongPortType),
        }
    }

    /// Sets a new value and hands back the previous one.
    ///
    /// Fails with [`Error::WrongPortType`] if the port is not `InOutBound`,
    /// else with [`Error::WrongDataType`] if it was made for another type than
    /// `T`.
    pub fn replace<T: AnyPortValue>(&mut self, value: T) -> (r: Result<Option<T>, Error>)
        ensures
            !old(self).exchangeable() ==> r == Err::<Option<T>, Error>(Error::WrongPortType),
            old(self).exchangeable() && r is Err ==> r->Err_0 == Error::WrongDataType,
            *final(self) == *old(self),
    {
        match self {
            PortVariant::InOutBound(port) => port.replace(value),
            PortVariant::InBound(_) | PortVariant::OutBound(_) => Err(Error::WrongPortType),
        }
    }

    /// The count of changes of the port's value at the time of the call:
    /// - `0` for a port which never held a value,
    /// - one more with each change of the value,
    /// - `1` again after [`u32::MAX`].
    pub fn sequence_number(&self) -> u32 {
        match self {
            PortVariant::InBound(port) => port.sequence_number(),
            PortVariant::InOutBound(port) => port.sequence_number(),
            PortVariant::OutBound(port) => port.sequence_number(),
        }
    }

    /// Takes the value out of the port, which holds none afterwards.
    ///
    /// Fails with [`Error::WrongPortType`] if the port is not `InOutBound`,
    /// else with [`Error::WrongDataType`] if it was made for another type than
    /// `T`.
    pub fn take<T: AnyPortValue>(&mut self) -> (r: Result<Option<T>, Error>)
        ensures
            !old(self).exchangeable() ==> r == Err::<Option<T>, Error>(Error::WrongPortType),
            old(self).exchangeable() && r is Err ==> r->Err_0 == Error::WrongDataType,
            *final(self) == *old(self),
    {
        match self {
            PortVariant::InOutBound(port) => port.take(),
            PortVariant::InBound(_) | PortVariant::OutBound(_) => Err(Error::WrongPortType),
        }
    }

    /// Sets a new value.
    ///
    /// Fails with [`Error::WrongPortType`] if the port is not writable, else
    /// with [`Error::WrongDataType`] if it was made for another type than `T`.
    pub fn set<T: AnyPortValue>(&mut self, value: T) -> (r: Result<(), Error>)
        ensures
            !old(self).writable() ==> r == Err::<(), Error>(Error::WrongPortType),
            old(self).writable() && r is Err ==> r->Err_0 == Error::WrongDataType,
            *final(self) == *old(self),
    {
        match self {
            PortVariant::OutBound(port) => port.set(value),
            PortVariant::InOutBound(port) => port.set(value),
            PortVariant::InBound(_) => Err(Error::WrongPortType),
        }
    }

    /// A write guard on the value. Waits while the value is locked.
    ///
    /// Fails with [`Error::WrongPortType`] if the port is not writable, else
    /// with [`Error::WrongDataType`] if it was made for another type than `T`,
    /// and with [`Error::NoValueSet`] if it holds no value.
    pub fn write<T: AnyPortValue>(&self) -> (r: Result<PortValueWriteGuard<'_, T>, Error>)
        ensures
            !self.writable() ==> r is Err && r->Err_0 == Error::WrongPortType,
            self.writable() && r is Err ==> r->Err_0 == Error::WrongDataType || r->Err_0
                == Error::NoValueSet,
            r is Ok ==> !r->Ok_0.modified(),
    {
        match self {
            PortVariant::OutBound(port) => port.write(),
            PortVariant::InOutBound(port) => port.write(),
            PortVariant::InBound(_) => Err(Error::WrongPortType),
        }
    }

    /// A write guard on the value, without waiting.
    ///
    /// Fails as [`PortVariant::write`] does, and with [`Error::IsLocked`] if
    /// the value is locked.
    pub fn try_write<T: AnyPortValue>(&self) -> (r: Result<PortValueWriteGuard<'_, T>, Error>)
        ensures
            !self.writable() ==> r is Err && r->Err_0 == Error::WrongPortType,
            self.writable() && r is Err ==> r->Err_0 == Error::IsLocked || r->Err_0
                == Error::WrongDataType || r->Err_0 == Error::NoValueSet,
            r is Ok ==> !r->Ok_0.modified(),
    {
        match self {
            PortVariant::OutBound(port) => port.try_write(),
            PortVariant::InOutBound(port) => port.try_write(),
            PortVariant::InBound(_) => Err(Error::WrongPortType),
        }
    }

    /// Takes the value out of the port's cell and gives the port up.
    ///
    /// Fails with [`Error::WrongDataType`], and only with it, if the port was
    /// made for another type than `T`.
    pub fn into_inner<T: AnyPortValue>(self) -> (r: Result<Option<T>, Error>)
        ensures
            r is Err ==> r->Err_0 == Error::WrongDataType,
    {
        match self {
            PortVariant::InBound(port) => port.into_inner(),
            PortVariant::InOutBound(port) => port.into_inner(),
            PortVariant::OutBound(port) => port.into_inner(),
        }
    }
}

impl Clone for PortVariant {
    /// Another port of the same kind on the same cell.
    fn clone(&self) -> (port: Self)
        ensures
            self.same_kind_on(&port, self.cell()),
    {
        match self {
            PortVariant::InBound(inner) => PortVariant::InBound(inner.clone()),
            PortVariant::InOutBound(inner) => PortVariant::InOutBound(inner.clone()),
            PortVariant::OutBound(inner) => PortVariant::OutBound(inner.clone()),
        }
    }
}

} // verus!

//! A store of values by key, with guarded access to each of them.

use crate::any_port_value::AnyPortValue;
use crate::bind::port_value::{PortValueReadGuard, PortValueWriteGuard};
use crate::collections::{has_name, lemma_position_of, position_of, Entries};
use crate::error::Error;
use crate::port::Port;
use crate::port_data_base::{exchange_of, PortDataBase};
use crate::traits::PortProvider;
use vstd::prelude::*;

verus! {

/// Holds values of any types, each in a readable and writable port under its
/// key.
#[derive(Debug)]
pub struct PortBase {
    storage: PortDataBase,
}

impl PortBase {
    /// The keys and ports of the store, in the order of their creation.
    pub closed spec fn entries(&self) -> Entries {
        self.storage.provided()
    }

    /// Whether no key occurs twice.
    pub closed spec fn wf(&self) -> bool {
        self.storage.wf()
    }

    /// An empty store.
    pub fn new() -> (store: Self)
        ensures
            store.entries() == Entries::empty(),
            store.wf(),
    {
        PortBase { storage: PortDataBase::new() }
    }

    /// The port under `key`, if it is a readable and writable one.
    fn exchange_port(&self, key: &str) -> (r: Result<&Port, Error>)
        ensures
            match exchange_of(self.entries(), key@) {
                Ok(variant) => r is Ok && r->Ok_0.bound() == variant,
                Err(e) => r is Err && r->Err_0 == e,
            },
    {
        proof {
            lemma_position_of(self.entries(), key@);
        }
        match self.storage.find(key) {
            None => Err(Error::NotFound),
            Some(port) => if port.port().is_exchangeable() {
                Ok(port)
            } else {
                Err(Error::WrongPortType)
            },
        }
    }

    /// Whether there is a port under `key`.
    pub fn contains_key(&self, key: &str) -> (b: bool)
        ensures
            b == has_name(self.entries(), key@),
    {
        self.storage.contains_key(key)
    }

    /// Whether there is a port under `key`, which must then be one for values
    /// of type `T` to be exchanged.
    ///
    /// Fails with [`Error::WrongPortType`] if the port is not readable and
    /// writable, and else with [`Error::WrongDataType`] if it was made for
    /// another type than `T`.
    pub fn contains<T: AnyPortValue>(&self, key: &str) -> (r: Result<bool, Error>)
        ensures
            match exchange_of(self.entries(), key@) {
                Err(Error::NotFound) => r == Ok::<bool, Error>(false),
                Err(e) => r == Err::<bool, Error>(e),
                Ok(_) => r == Ok::<bool, Error>(true) || r == Err::<bool, Error>(
                    Error::WrongDataType,
                ),
            },
    {
        self.storage.contains::<T>(key)
    }

    /// Creates a readable and writable port under `key` that starts with
    /// `value`.
    ///
    /// Fails with [`Error::AlreadyInCollection`], and leaves the store as it
    /// is, if there is a port under `key` already.
    pub fn create<T: AnyPortValue>(&mut self, key: &str, value: T) -> (r: Result<(), Error>)
        ensures
            has_name(old(self).entries(), key@) ==> r == Err::<(), Error>(
                Error::AlreadyInCollection,
            ) && final(self).entries() == old(self).entries(),
            !has_name(old(self).entries(), key@) ==> r is Ok
                && final(self).entries().len() == old(self).entries().len() + 1
                && final(self).entries().drop_last() == old(self).entries()
                && final(self).entries().last().0 == key@ && final(self).entries().last().1
                is InOutBound,
            old(self).wf() ==> final(self).wf(),
    {
        self.storage.create(key, value)
    }

    /// Takes the value of type `T` out of the port under `key` and deletes the
    /// port.
    ///
    /// Fails, and leaves the store as it is, with [`Error::NotFound`] if there
    /// is no port under `key`, with [`Error::WrongPortType`] if the port is
    /// not readable and writable, and with [`Error::WrongDataType`] if it was
    /// made for another type than `T`. Fails with [`Error::NoValueSet`] if the
    /// port holds no value; the port is deleted all the same.
    pub fn delete<T: AnyPortValue>(&mut self, key: &str) -> (r: Result<T, Error>)
        ensures
            match exchange_of(old(self).entries(), key@) {
                Err(e) => r is Err && r->Err_0 == e && final(self).entries() == old(self).entries(),
                Ok(_) => {
                    let i = position_of(old(self).entries(), key@)->0;
                    match r {
                        Ok(_) => final(self).entries() == old(self).entries().remove(i),
                        Err(Error::NoValueSet) => final(self).entries() == old(
                            self,
                        ).entries().remove(i),
                        Err(e) => e == Error::WrongDataType
                            && final(self).entries() == old(self).entries(),
                    }
                },
            },
            old(self).wf() ==> final(self).wf(),
    {
        self.storage.delete::<T>(key)
    }

    /// A clone of the value of type `T` under `key`.
    ///
    /// Fails with [`Error::NotFound`] if there is no port under `key`, with
    /// [`Error::WrongPortType`] if the port is not readable and writable, and
    /// with [`Error::WrongDataType`] if it was made for another type than `T`.
    pub fn get<T: AnyPortValue + Clone>(&self, key: &str) -> (r: Result<Option<T>, Error>)
        ensures
            match exchange_of(self.entries(), key@) {
                Err(e) => r is Err && r->Err_0 == e,
                Ok(_) => r is Err ==> r->Err_0 == Error::WrongDataType,
            },
    {
        match self.exchange_port(key) {
            Err(e) => Err(e),
            Ok(port) => port.port().cell_ref().get::<T>(),
        }
    }

    /// Another port on the cell of the port under `key`, of the same name and
    /// kind.
    ///
    /// Fails with [`Error::NotFound`] if, and only if, there is no port under
    /// `key`.
    pub fn port(&self, key: &str) -> (r: Result<Port, Error>)
        ensures
            match position_of(self.entries(), key@) {
                None => r is Err && r->Err_0 == Error::NotFound,
                Some(i) => r is Ok && r->Ok_0.label() == key@ && self.entries()[i].1.same_kind_on(
                    &r->Ok_0.bound(),
                    self.entries()[i].1.cell(),
                ),
            },
    {
        self.storage.port(key)
    }

    /// A read guard on the value of type `T` under `key`. Waits while the
    /// value is locked for writing.
    ///
    /// Fails with [`Error::NotFound`] if there is no port under `key`, with
    /// [`Error::WrongPortType`] if the port is not readable and writable, with
    /// [`Error::WrongDataType`] if it was made for another type than `T`, and
    /// with [`Error::NoValueSet`] if it holds no value.
    pub fn read<T: AnyPortValue>(&self, key: &str) -> (r: Result<PortValueReadGuard<'_, T>, Error>)
        ensures
            match exchange_of(self.entries(), key@) {
                Err(e) => r is Err && r->Err_0 == e,
                Ok(_) => r is Err ==> r->Err_0 == Error::WrongDataType || r->Err_0
                    == Error::NoValueSet,
            },
    {
        match self.exchange_port(key) {
            Err(e) => Err(e),
            Ok(port) => PortValueReadGuard::new(port.port().cell_ref()),
        }
    }

    /// A read guard on the value of type `T` under `key`, without waiting.
    ///
    /// Fails as [`PortBase::read`] does, and with [`Error::IsLocked`] if the
    /// value is locked for writing.
    pub fn try_read<T: AnyPortValue>(&self, key: &str) -> (r: Result<
        PortValueReadGuard<'_, T>,
        Error,
    >)
        ensures
            match exchange_of(self.entries(), key@) {
                Err(e) => r is Err && r->Err_0 == e,
                Ok(_) => r is Err ==> r->Err_0 == Error::IsLocked || r->Err_0
                    == Error::WrongDataType || r->Err_0 == Error::NoValueSet,
            },
    {
        match self.exchange_port(key) {
            Err(e) => Err(e),
            Ok(port) => PortValueReadGuard::try_new(port.port().cell_ref()),
        }
    }

    /// The count of changes of the value under `key`, at the time of the call.
    ///
    /// Fails with [`Error::NotFound`] if, and only if, there is no port under
    /// `key`.
    pub fn sequence_number(&self, key: &str) -> (r: Result<u32, Error>)
        ensures
            r is Ok <==> has_name(self.entries(), key@),
            r is Err ==> r->Err_0 == Error::NotFound,
    {
        proof {
            lemma_position_of(self.entries(), key@);
        }
        match self.storage.find(key) {
            Some(port) => Ok(port.port().sequence_number()),
            None => Err(Error::NotFound),
        }
    }

    /// Sets a new value of type `T` under `key` and hands back the previous
    /// one.
    ///
    /// Fails with [`Error::NotFound`] if there is no port under `key`, with
    /// [`Error::WrongPortType`] if the port is not readable and writable, and
    /// with [`Error::WrongDataType`] if it was made for another type than `T`.
    pub fn update<T: AnyPortValue>(&self, key: &str, value: T) -> (r: Result<Option<T>, Error>)
        ensures
            match exchange_of(self.entries(), key@) {
                Err(e) => r is Err && r->Err_0 == e,
                Ok(_) => r is Err ==> r->Err_0 == Error::WrongDataType,
            },
    {
        self.storage.update(key, value)
    }

    /// A write guard on the value of type `T` under `key`. Waits while the
    /// value is locked. However often the value is handed out for writing
    /// while the guard is held, a single change is counted.
    ///
    /// Fails with [`Error::NotFound`] if there is no port under `key`, with
    /// [`Error::WrongPortType`] if the port is not readable and writable, with
    /// [`Error::WrongDataType`] if it was made for another type than `T`, and
    /// with [`Error::NoValueSet`] if it holds no value.
    pub fn write<T: AnyPortValue>(&self, key: &str) -> (r: Result<
        PortValueWriteGuard<'_, T>,
        Error,
    >)
        ensures
            match exchange_of(self.entries(), key@) {
                Err(e) => r is Err && r->Err_0 == e,
                Ok(_) => r is Err ==> r->Err_0 == Error::WrongDataType || r->Err_0
                    == Error::NoValueSet,
            },
            r is Ok ==> !r->Ok_0.modified(),
    {
        match self.exchange_port(key) {
            Err(e) => Err(e),
            Ok(port) => PortValueWriteGuard::new(port.port().cell_ref()),
        }
    }

    /// A write guard on the value of type `T` under `key`, without waiting.
    ///
    /// Fails as [`PortBase::write`] does, and with [`Error::IsLocked`] if the
    /// value is locked.
    pub fn try_write<T: AnyPortValue>(&self, key: &str) -> (r: Result<
        PortValueWriteGuard<'_, T>,
        Error,
    >)
        ensures
            match exchange_of(self.entries(), key@) {
                Err(e) => r is Err && r->Err_0 == e,
                Ok(_) => r is Err ==> r->Err_0 == Error::IsLocked || r->Err_0
                    == Error::WrongDataType || r->Err_0 == Error::NoValueSet,
            },
            r is Ok ==> !r->Ok_0.modified(),
    {
        match self.exchange_port(key) {
            Err(e) => Err(e),
            Ok(port) => PortValueWriteGuard::try_new(port.port().cell_ref()),
        }
    }
}

impl Default for PortBase {
    fn default() -> (store: Self)
        ensures
            store.entries() == Entries::empty(),
            store.wf(),
    {
        PortBase::new()
    }
}

} // verus!

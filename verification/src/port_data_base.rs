//! A store of values, each in a readable and writable port under its key.

use crate::any_port_value::AnyPortValue;
use crate::bind::in_out_port::BoundInOutPort;
use crate::collections::{
    contained, has_name, lemma_position_of, lemma_unique_after_insert, lemma_unique_after_remove,
    names_are_unique, position_of, Entries,
};
use crate::error::Error;
use crate::port::{first_port_position, lemma_port_entries_update, port_entries, Port};
use crate::port_variant::PortVariant;
use crate::traits::{PortAccessors, PortProvider};
use vstd::prelude::*;

verus! {

/// What is found under a key when a value of some type is to be exchanged:
/// only a readable and writable port will do.
pub open spec fn exchange_of(entries: Entries, key: Seq<char>) -> Result<PortVariant, Error> {
    match position_of(entries, key) {
        None => Err(Error::NotFound),
        Some(i) => if entries[i].1.exchangeable() {
            Ok(entries[i].1)
        } else {
            Err(Error::WrongPortType)
        },
    }
}

/// What a deletion hands back for what the taking of the value has got: the
/// value, [`Error::NoValueSet`] where there was none, or the error of the
/// taking.
pub open spec fn taken_value<T>(taken: Result<Option<T>, Error>) -> Result<T, Error> {
    match taken {
        Ok(Some(value)) => Ok(value),
        Ok(None) => Err(Error::NoValueSet),
        Err(e) => Err(e),
    }
}

/// A database like store of [`Port`]s, each under its key. No key occurs
/// twice.
#[derive(Debug)]
pub struct PortDataBase(Vec<Port>);

impl PortDataBase {
    /// Whether no key occurs twice. Every store that this module hands out is
    /// such a one, and its operations keep it so.
    pub open spec fn wf(&self) -> bool {
        names_are_unique(self.provided())
    }

    /// An empty store.
    pub fn new() -> (store: Self)
        ensures
            store.provided() == Entries::empty(),
            store.wf(),
    {
        let store = PortDataBase(Vec::new());
        assert(store.provided() =~= Entries::empty());
        store
    }

    /// The readable and writable port under `key`, for a value of some type to
    /// be exchanged.
    fn exchange_port(&self, key: &str) -> (r: Result<&Port, Error>)
        ensures
            match exchange_of(self.provided(), key@) {
                Ok(variant) => r is Ok && r->Ok_0.bound() == variant && r->Ok_0.label() == key@,
                Err(e) => r is Err && r->Err_0 == e,
            },
    {
        proof {
            lemma_position_of(self.provided(), key@);
        }
        match first_port_position(self.0.as_slice(), key) {
            None => Err(Error::NotFound),
            Some(i) => if self.0[i].port().is_exchangeable() {
                Ok(&self.0[i])
            } else {
                Err(Error::WrongPortType)
            },
        }
    }

    /// Whether there is a port under `key`.
    pub fn contains_key(&self, key: &str) -> (b: bool)
        ensures
            b == has_name(self.provided(), key@),
    {
        proof {
            lemma_position_of(self.provided(), key@);
        }
        first_port_position(self.0.as_slice(), key).is_some()
    }

    /// Whether there is a port under `key`, which must then be one for values
    /// of type `T` to be exchanged.
    ///
    /// Fails with [`Error::WrongPortType`] if the port is not readable and
    /// writable, and else with [`Error::WrongDataType`] if it was made for
    /// another type than `T`.
    pub fn contains<T: AnyPortValue>(&self, key: &str) -> (r: Result<bool, Error>)
        ensures
            match exchange_of(self.provided(), key@) {
                Err(Error::NotFound) => r == Ok::<bool, Error>(false),
                Err(e) => r == Err::<bool, Error>(e),
                Ok(_) => r == Ok::<bool, Error>(true) || r == Err::<bool, Error>(
                    Error::WrongDataType,
                ),
            },
    {
        match self.exchange_port(key) {
            Err(Error::NotFound) => Ok(false),
            Err(e) => Err(e),
            Ok(port) => contained(port.port().is::<T>()),
        }
    }

    /// Creates a readable and writable port under `key` that starts with
    /// `value`, behind the ports that are there.
    ///
    /// Fails with [`Error::AlreadyInCollection`], and leaves the store as it
    /// is, if there is a port under `key` already.
    pub fn create<T: AnyPortValue>(&mut self, key: &str, value: T) -> (r: Result<(), Error>)
        ensures
            has_name(old(self).provided(), key@) ==> r == Err::<(), Error>(
                Error::AlreadyInCollection,
            ) && final(self).provided() == old(self).provided(),
            !has_name(old(self).provided(), key@) ==> r is Ok && final(self).provided().len()
                == old(self).provided().len() + 1
                    && final(self).provided().drop_last() == old(self).provided()
                    && final(self).provided().last().0 == key@
                    && final(self).provided().last().1 is InOutBound,
            old(self).wf() ==> final(self).wf(),
    {
        proof {
            lemma_position_of(self.provided(), key@);
        }
        if first_port_position(self.0.as_slice(), key).is_some() {
            Err(Error::AlreadyInCollection)
        } else {
            let port = Port::new(key, PortVariant::InOutBound(BoundInOutPort::with_value(value)));
            self.0.push(port);
            proof {
                let entry = (port.label(), port.bound());
                assert(self.provided() =~= old(self).provided().push(entry));
                assert(self.provided().drop_last() =~= old(self).provided());
                if old(self).wf() {
                    lemma_unique_after_insert(old(self).provided(), key@, port.bound());
                }
            }
            Ok(())
        }
    }

    /// Takes the value of type `T` out of the port under `key` and deletes the
    /// port.
    ///
    /// Fails, and leaves the store as it is, with [`Error::NotFound`] if there
    /// is no port under `key`, with [`Error::WrongPortType`] if the port is
    /// not readable and writable, and with [`Error::WrongDataType`] if it was
    /// made for another type than `T`. Fails with [`Error::NoValueSet`] if the
    /// port holds no value; the port is deleted all the same.
    pub fn delete<T: AnyPortValue>(&mut self, key: &str) -> (r: Result<T, Error>)
        ensures
            match exchange_of(old(self).provided(), key@) {
                Err(e) => r is Err
                    && r->Err_0 == e
                    && final(self).provided() == old(self).provided(),
                Ok(_) => {
                    let i = position_of(old(self).provided(), key@)->0;
                    match r {
                        Ok(_) => final(self).provided() == old(self).provided().remove(i),
                        Err(Error::NoValueSet) => final(self).provided() == old(
                            self,
                        ).provided().remove(i),
                        Err(e) => e == Error::WrongDataType
                            && final(self).provided() == old(self).provided(),
                    }
                },
            },
            old(self).wf() ==> final(self).wf(),
    {
        proof {
            lemma_position_of(self.provided(), key@);
        }
        match first_port_position(self.0.as_slice(), key) {
            None => Err(Error::NotFound),
            Some(i) => {
                if !self.0[i].port().is_exchangeable() {
                    return Err(Error::WrongPortType);
                }
                let taken = self.0[i].port().cell_ref().take::<T>();
                self.finish_delete(i, taken)
            },
        }
    }

    /// Ends the deletion of the port at index `i`, whose value was to be
    /// taken out: `taken` is what the taking has got. The port leaves if, and
    /// only if, the taking went well; the result is the value that was taken,
    /// [`Error::NoValueSet`] where there was none to take, and the error of
    /// the taking where it failed.
    pub fn finish_delete<T>(&mut self, i: usize, taken: Result<Option<T>, Error>) -> (r: Result<
        T,
        Error,
    >)
        ensures
            r == taken_value(taken),
            taken is Ok && i < old(self).provided().len() ==> final(self).provided() == old(
                self,
            ).provided().remove(i as int),
            taken is Err || i >= old(self).provided().len() ==> final(self).provided() == old(
                self,
            ).provided(),
            old(self).wf() ==> final(self).wf(),
    {
        match taken {
            Err(e) => Err(e),
            Ok(value) => {
                if i < self.0.len() {
                    let _ = self.0.remove(i);
                    proof {
                        assert(self.provided() =~= old(self).provided().remove(i as int));
                        if old(self).wf() {
                            lemma_unique_after_remove(old(self).provided(), i as int);
                        }
                    }
                }
                match value {
                    Some(value) => Ok(value),
                    None => Err(Error::NoValueSet),
                }
            },
        }
    }

    /// Another port on the cell of the port under `key`, of the same name and
    /// kind.
    ///
    /// Fails with [`Error::NotFound`] if, and only if, there is no port under
    /// `key`.
    pub fn port(&self, key: &str) -> (r: Result<Port, Error>)
        ensures
            match position_of(self.provided(), key@) {
                None => r is Err && r->Err_0 == Error::NotFound,
                Some(i) => r is Ok && r->Ok_0.label() == key@ && self.provided()[i].1.same_kind_on(
                    &r->Ok_0.bound(),
                    self.provided()[i].1.cell(),
                ),
            },
    {
        proof {
            lemma_position_of(self.provided(), key@);
        }
        match first_port_position(self.0.as_slice(), key) {
            Some(i) => Ok(self.0[i].clone()),
            None => Err(Error::NotFound),
        }
    }

    /// Sets a new value of type `T` on the port under `key` and hands back the
    /// previous one.
    ///
    /// Fails with [`Error::NotFound`] if there is no port under `key`, with
    /// [`Error::WrongPortType`] if the port is not readable and writable, and
    /// with [`Error::WrongDataType`] if it was made for another type than `T`.
    pub fn update<T: AnyPortValue>(&self, key: &str, value: T) -> (r: Result<Option<T>, Error>)
        ensures
            match exchange_of(self.provided(), key@) {
                Err(e) => r is Err && r->Err_0 == e,
                Ok(_) => r is Err ==> r->Err_0 == Error::WrongDataType,
            },
    {
        match self.exchange_port(key) {
            Err(e) => Err(e),
            Ok(port) => port.port().cell_ref().replace(value),
        }
    }

    /// The number of ports.
    pub fn len(&self) -> (n: usize)
        ensures
            n == self.provided().len(),
    {
        self.0.len()
    }
}

impl Default for PortDataBase {
    fn default() -> (store: Self)
        ensures
            store.provided() == Entries::empty(),
            store.wf(),
    {
        PortDataBase::new()
    }
}

impl PortProvider for PortDataBase {
    closed spec fn provided(&self) -> Entries {
        port_entries(self.0@)
    }

    fn find(&self, name: &str) -> (port: Option<&Port>) {
        proof {
            lemma_position_of(self.provided(), name@);
        }
        match first_port_position(self.0.as_slice(), name) {
            Some(i) => Some(&self.0[i]),
            None => None,
        }
    }

    fn find_mut(&mut self, name: &str) -> (port: Option<&mut PortVariant>) {
        match first_port_position(self.0.as_slice(), name) {
            Some(i) => {
                proof {
                    lemma_position_of(port_entries(self.0@), name@);
                    lemma_port_entries_update(self.0@, i as int);
                }
                let port = &mut self.0[i];
                Some(port.port_mut())
            },
            None => None,
        }
    }
}

impl PortAccessors for PortDataBase {

}

} // verus!

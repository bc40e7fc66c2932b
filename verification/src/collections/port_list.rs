//! An extendable unsorted collection of ports.

use crate::any_port_value::AnyPortValue;
use crate::collections::port_vec::{
    entries_of, finish_remove, first_position, lemma_entries_update,
};
use crate::collections::{
    lemma_position_of, Entries, PortCollection, PortCollectionAccessors,
    PortCollectionAccessorsCommon, PortCollectionAccessorsMut, PortCollectionMut,
};
use crate::error::Error;
use crate::names::vec_from_array;
use crate::port_variant::PortVariant;
use vstd::prelude::*;

verus! {

/// An extendable unsorted list of [`PortVariant`]s, each under its name. A
/// name that occurs twice finds the first of its ports.
#[derive(Debug)]
pub struct PortList(Vec<(String, PortVariant)>);

impl PortList {
    /// A list of the entries of `array`, in their order.
    pub fn from<const N: usize>(array: [(String, PortVariant); N]) -> (list: Self)
        ensures
            list.entries() == entries_of(array@),
    {
        PortList(vec_from_array(array))
    }

    /// Moves all ports of `other` behind the ports of this list. The other
    /// list is empty afterwards.
    pub fn append(&mut self, other: &mut PortList)
        ensures
            final(self).entries() == old(self).entries() + old(other).entries(),
            final(other).entries() == Entries::empty(),
    {
        self.0.append(&mut other.0);
        proof {
            assert(self.entries() =~= old(self).entries() + old(other).entries());
            assert(other.entries() =~= Entries::empty());
        }
    }

    /// The number of ports.
    pub fn len(&self) -> (n: usize)
        ensures
            n == self.entries().len(),
    {
        self.0.len()
    }

    /// Whether the list holds no port.
    pub fn is_empty(&self) -> (b: bool)
        ensures
            b == (self.entries().len() == 0),
    {
        self.0.len() == 0
    }
}

impl Default for PortList {
    fn default() -> (list: Self)
        ensures
            list.entries() == Entries::empty(),
    {
        let list = PortList(Vec::new());
        assert(list.entries() =~= Entries::empty());
        list
    }
}

impl PortCollection for PortList {
    closed spec fn entries(&self) -> Entries {
        entries_of(self.0@)
    }

    fn find(&self, name: &str) -> (port: Option<&PortVariant>) {
        match first_position(self.0.as_slice(), name) {
            Some(i) => Some(&self.0[i].1),
            None => None,
        }
    }

    fn find_mut(&mut self, name: &str) -> (port: Option<&mut PortVariant>) {
        match first_position(self.0.as_slice(), name) {
            Some(i) => {
                proof {
                    lemma_position_of(entries_of(self.0@), name@);
                    lemma_entries_update(self.0@, i as int);
                }
                Some(&mut self.0[i].1)
            },
            None => None,
        }
    }
}

impl PortCollectionMut for PortList {
    fn insert(&mut self, name: &str, port: PortVariant) -> (r: Result<(), Error>) {
        proof {
            lemma_position_of(self.entries(), name@);
        }
        if first_position(self.0.as_slice(), name).is_some() {
            Err(Error::AlreadyInCollection)
        } else {
            self.0.push((name.to_owned(), port));
            proof {
                assert(self.entries() =~= old(self).entries().push((name@, port)));
            }
            Ok(())
        }
    }

    fn remove<T: AnyPortValue>(&mut self, name: &str) -> (r: Result<Option<T>, Error>) {
        match first_position(self.0.as_slice(), name) {
            None => Err(Error::NotFound),
            Some(i) => {
                let taken = self.0[i].1.cell_ref().take::<T>();
                finish_remove(&mut self.0, i, taken)
            },
        }
    }
}

impl PortCollectionAccessorsCommon for PortList {

}

impl PortCollectionAccessors for PortList {

}

impl PortCollectionAccessorsMut for PortList {

}

} // verus!

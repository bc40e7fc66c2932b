//! A fixed unsorted collection of ports.

use crate::collections::port_vec::{entries_of, first_position, lemma_entries_update};
use crate::collections::{
    lemma_position_of, Entries, PortCollection, PortCollectionAccessors,
    PortCollectionAccessorsCommon, PortCollectionAccessorsMut,
};
use crate::port_variant::PortVariant;
use vstd::prelude::*;

verus! {

/// A fixed unsorted array of [`PortVariant`]s, each under its name.
#[derive(Debug)]
pub struct PortArray<const S: usize>([(String, PortVariant); S]);

impl<const S: usize> PortArray<S> {
    /// The array of the entries `ports`, in their order.
    pub fn from(ports: [(String, PortVariant); S]) -> (array: Self)
        ensures
            array.entries() == entries_of(ports@),
    {
        PortArray(ports)
    }

    /// The number of ports.
    pub fn len(&self) -> (n: usize)
        ensures
            n == S,
            n == self.entries().len(),
    {
        S
    }

    /// Whether the array holds no port.
    pub fn is_empty(&self) -> (b: bool)
        ensures
            b == (S == 0),
    {
        S == 0
    }
}

impl PortArray<0> {
    /// The array without ports.
    pub fn empty() -> (array: Self)
        ensures
            array.entries() == Entries::empty(),
    {
        let array = PortArray::from([]);
        assert(array.entries() =~= Entries::empty());
        array
    }
}

impl<const S: usize> PortCollection for PortArray<S> {
    closed spec fn entries(&self) -> Entries {
        entries_of(self.0@)
    }

    fn find(&self, name: &str) -> (port: Option<&PortVariant>) {
        match first_position(self.0.as_slice(), name) {
            Some(i) => Some(&self.0[i].1),
            None => None,
        }
    }

    fn find_mut(&mut self, name: &str) -> (port: Option<&mut PortVariant>) {
        match first_position(self.0.as_slice(), name) {
            Some(i) => {
                proof {
                    lemma_position_of(entries_of(self.0@), name@);
                    lemma_entries_update(self.0@, i as int);
                }
                Some(&mut self.0[i].1)
            },
            None => None,
        }
    }
}

impl<const S: usize> PortCollectionAccessorsCommon for PortArray<S> {

}

impl<const S: usize> PortCollectionAccessors for PortArray<S> {

}

impl<const S: usize> PortCollectionAccessorsMut for PortArray<S> {

}

} // verus!

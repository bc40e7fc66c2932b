//! A fixed array of named ports.

use crate::collections::{lemma_position_of, Entries};
use crate::port::{first_port_position, lemma_port_entries_update, port_entries, Port};
use crate::port_variant::PortVariant;
use crate::traits::{PortAccessors, PortProvider};
use vstd::prelude::*;

verus! {

/// An array like container for [`Port`]s. A name that occurs twice finds the
/// first of its ports.
#[derive(Debug)]
pub struct PortArray<const S: usize>([Port; S]);

impl<const S: usize> PortArray<S> {
    /// The array of the ports `ports`, in their order.
    pub fn new(ports: [Port; S]) -> (array: Self)
        ensures
            array.provided() == port_entries(ports@),
    {
        PortArray(ports)
    }

    /// The number of ports.
    pub fn len(&self) -> (n: usize)
        ensures
            n == S,
            n == self.provided().len(),
    {
        S
    }

    /// Whether the array holds no port.
    pub fn is_empty(&self) -> (b: bool)
        ensures
            b == (S == 0),
    {
        S == 0
    }
}

impl<const S: usize> PortProvider for PortArray<S> {
    closed spec fn provided(&self) -> Entries {
        port_entries(self.0@)
    }

    fn find(&self, name: &str) -> (port: Option<&Port>) {
        proof {
            lemma_position_of(self.provided(), name@);
        }
        match first_port_position(self.0.as_slice(), name) {
            Some(i) => Some(&self.0[i]),
            None => None,
        }
    }

    fn find_mut(&mut self, name: &str) -> (port: Option<&mut PortVariant>) {
        match first_port_position(self.0.as_slice(), name) {
            Some(i) => {
                proof {
                    lemma_position_of(port_entries(self.0@), name@);
                    lemma_port_entries_update(self.0@, i as int);
                }
                let port = &mut self.0[i];
                Some(port.port_mut())
            },
            None => None,
        }
    }
}

impl<const S: usize> PortAccessors for PortArray<S> {

}

} // verus!

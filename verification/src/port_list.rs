//! A list of named ports that can grow and shrink.

use crate::collections::{lemma_position_of, position_of, Entries};
use crate::port::{first_port_position, lemma_port_entries_update, port_entries, Port};
use crate::port_variant::PortVariant;
use crate::traits::{PortAccessors, PortProvider};
use vstd::prelude::*;

verus! {

/// A list like container for [`Port`]s. A name that occurs twice finds the
/// first of its ports.
#[derive(Debug)]
pub struct PortList(Vec<Port>);

impl PortList {
    /// The list of the ports `ports`, in their order.
    pub fn new(ports: Vec<Port>) -> (list: Self)
        ensures
            list.provided() == port_entries(ports@),
    {
        PortList(ports)
    }

    /// Adds `port` behind the ports that are there, whatever its name.
    pub fn add(&mut self, port: Port)
        ensures
            final(self).provided() == old(self).provided().push((port.label(), port.bound())),
    {
        self.0.push(port);
        proof {
            assert(self.provided() =~= old(self).provided().push((port.label(), port.bound())));
        }
    }

    /// Removes the first port under `name` and hands it back, if there is one.
    pub fn remove(&mut self, name: &str) -> (port: Option<Port>)
        ensures
            match position_of(old(self).provided(), name@) {
                Some(i) => port is Some
                    && port->0.label() == name@
                    && port->0.bound() == old(self).provided()[i].1
                    && final(self).provided() == old(self).provided().remove(i),
                None => port is None && final(self).provided() == old(self).provided(),
            },
    {
        proof {
            lemma_position_of(self.provided(), name@);
        }
        match first_port_position(self.0.as_slice(), name) {
            Some(i) => {
                let port = self.0.remove(i);
                proof {
                    assert(self.provided() =~= old(self).provided().remove(i as int));
                }
                Some(port)
            },
            None => None,
        }
    }

    /// The number of ports.
    pub fn len(&self) -> (n: usize)
        ensures
            n == self.provided().len(),
    {
        self.0.len()
    }

    /// Whether the list holds no port.
    pub fn is_empty(&self) -> (b: bool)
        ensures
            b == (self.provided().len() == 0),
    {
        self.0.len() == 0
    }
}

impl Default for PortList {
    fn default() -> (list: Self)
        ensures
            list.provided() == Entries::empty(),
    {
        let list = PortList(Vec::new());
        assert(list.provided() =~= Entries::empty());
        list
    }
}

impl PortProvider for PortList {
    closed spec fn provided(&self) -> Entries {
        port_entries(self.0@)
    }

    fn find(&self, name: &str) -> (port: Option<&Port>) {
        proof {
            lemma_position_of(self.provided(), name@);
        }
        match first_port_position(self.0.as_slice(), name) {
            Some(i) => Some(&self.0[i]),
            None => None,
        }
    }

    fn find_mut(&mut self, name: &str) -> (port: Option<&mut PortVariant>) {
        match first_port_position(self.0.as_slice(), name) {
            Some(i) => {
                proof {
                    lemma_position_of(port_entries(self.0@), name@);
                    lemma_port_entries_update(self.0@, i as int);
                }
                let port = &mut self.0[i];
                Some(port.port_mut())
            },
            None => None,
        }
    }
}

impl PortAccessors for PortList {

}

} // verus!

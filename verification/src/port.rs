//! A bound port under a name.

use crate::any_port_value::AnyPortValue;
use crate::bind::in_out_port::BoundInOutPort;
use crate::bind::in_port::BoundInPort;
use crate::bind::out_port::BoundOutPort;
use crate::bind::port_value::PortValuePtr;
use crate::collections::{
    lemma_absent_has_no_position, lemma_first_is_position, position_of, Entries,
};
use crate::error::Error;
use crate::names::same_name;
use crate::port_variant::PortVariant;
use crate::traits::PortCommons;
use vstd::prelude::*;
use vstd::std_specs::cmp::PartialEqSpecImpl;

verus! {

/// A port of one of the three kinds, for values of a type that is only known
/// at run time, under a name.
#[derive(Debug)]
pub struct Port {
    name: String,
    variant: PortVariant,
}

impl Port {
    /// The name of the port.
    pub closed spec fn label(&self) -> Seq<char> {
        self.name@
    }

    /// The bound port behind the name.
    pub closed spec fn bound(&self) -> PortVariant {
        self.variant
    }

    /// Whether two ports are of the same kind.
    pub open spec fn same_kind(a: PortVariant, b: PortVariant) -> bool {
        &&& a is InBound <==> b is InBound
        &&& a is InOutBound <==> b is InOutBound
        &&& a is OutBound <==> b is OutBound
    }

    /// The port `variant` under `name`.
    pub fn new(name: &str, variant: PortVariant) -> (port: Self)
        ensures
            port.label() == name@,
            port.bound() == variant,
    {
        Port { name: name.to_owned(), variant }
    }

    /// A readable port under `name` for values of type `T`, on a cell of its
    /// own that holds no value.
    pub fn create_in_port<T: AnyPortValue>(name: &str) -> (port: Self)
        ensures
            port.label() == name@,
            port.bound() is InBound,
    {
        Port { name: name.to_owned(), variant: PortVariant::InBound(BoundInPort::new::<T>()) }
    }

    /// A readable and writable port under `name` for values of type `T`, on a
    /// cell of its own that holds no value.
    pub fn create_inout_port<T: AnyPortValue>(name: &str) -> (port: Self)
        ensures
            port.label() == name@,
            port.bound() is InOutBound,
    {
        Port {
            name: name.to_owned(),
            variant: PortVariant::InOutBound(BoundInOutPort::new::<T>()),
        }
    }

    /// A writable port under `name` for values of type `T`, on a cell of its
    /// own that holds no value.
    pub fn create_out_port<T: AnyPortValue>(name: &str) -> (port: Self)
        ensures
            port.label() == name@,
            port.bound() is OutBound,
    {
        Port { name: name.to_owned(), variant: PortVariant::OutBound(BoundOutPort::new::<T>()) }
    }

    /// Whether the port is under `name`.
    pub fn has_name(&self, name: &str) -> (b: bool)
        ensures
            b == (self.label() == name@),
    {
        same_name(self.name.as_str(), name)
    }

    /// The bound port behind the name.
    pub fn port(&self) -> (variant: &PortVariant)
        ensures
            *variant == self.bound(),
    {
        &self.variant
    }

    /// The bound port behind the name, for changes. The name stays.
    pub fn port_mut(&mut self) -> (variant: &mut PortVariant)
        ensures
            *variant == old(self).bound(),
            final(self).bound() == *final(variant),
            final(self).label() == old(self).label(),
    {
        &mut self.variant
    }

    /// Gives the name up and hands out the bound port.
    pub fn into_variant(self) -> (variant: PortVariant)
        ensures
            variant == self.bound(),
    {
        self.variant
    }

    /// A handle to the cell of the port, if it is `wanted`.
    pub fn cell_if(&self, wanted: bool) -> (value: Option<PortValuePtr>)
        ensures
            wanted ==> value == Some(self.bound().cell()),
            !wanted ==> value is None,
    {
        if wanted {
            Some(self.variant.value())
        } else {
            None
        }
    }

    /// The bound port, if it is a readable and writable one and `wanted`.
    pub fn in_out_port_if(&self, wanted: bool) -> (port: Option<&BoundInOutPort>)
        ensures
            port is Some <==> wanted && self.bound() is InOutBound,
            port is Some ==> self.bound() == PortVariant::InOutBound(*port->0),
    {
        match &self.variant {
            PortVariant::InOutBound(port) => if wanted {
                Some(port)
            } else {
                None
            },
            PortVariant::InBound(_) | PortVariant::OutBound(_) => None,
        }
    }

    /// The cell of the port, if the port is readable and was made for values
    /// of type `T`.
    pub fn as_in_value<T: AnyPortValue>(&self) -> (value: Option<PortValuePtr>)
        ensures
            value is Some ==> self.bound().readable() && value->0 == self.bound().cell(),
    {
        self.cell_if(self.variant.is_readable() && self.variant.is::<T>())
    }

    /// The cell of the port, if the port is writable and was made for values
    /// of type `T`.
    pub fn as_out_value<T: AnyPortValue>(&self) -> (value: Option<PortValuePtr>)
        ensures
            value is Some ==> self.bound().writable() && value->0 == self.bound().cell(),
    {
        self.cell_if(self.variant.is_writable() && self.variant.is::<T>())
    }

    /// The cell of the port, if the port was made for values of type `T`.
    pub fn as_value<T: AnyPortValue>(&self) -> (value: Option<PortValuePtr>)
        ensures
            value is Some ==> value->0 == self.bound().cell(),
    {
        self.cell_if(self.variant.is::<T>())
    }

    /// The bound port, if it is readable and writable and was made for values
    /// of type `T`.
    pub fn as_in_out_port<T: AnyPortValue>(&self) -> (port: Option<&BoundInOutPort>)
        ensures
            port is Some ==> self.bound() == PortVariant::InOutBound(*port->0),
    {
        self.in_out_port_if(self.variant.is::<T>())
    }

    /// A clone of the value, if the port is readable, was made for values of
    /// type `T` and holds one.
    pub fn get<T: AnyPortValue + Clone>(&self) -> (value: Option<T>)
        ensures
            !self.bound().readable() ==> value is None,
    {
        value_or_none(self.variant.get::<T>())
    }
}

impl PortCommons for Port {
    open spec fn port_name(&self) -> Seq<char> {
        self.label()
    }

    fn name(&self) -> (name: String) {
        assert(self.port_name() == self.label());
        self.name.clone()
    }

    fn sequence_number(&self) -> u32 {
        self.variant.sequence_number()
    }
}

impl Clone for Port {
    /// Another port of the same name and kind on the same cell.
    fn clone(&self) -> (port: Self)
        ensures
            port.label() == self.label(),
            self.bound().same_kind_on(&port.bound(), self.bound().cell()),
    {
        Port { name: self.name.clone(), variant: self.variant.clone() }
    }
}

impl PartialEq for Port {
    /// Ports are equal if their names, their kinds and the types of their
    /// values are equal.
    fn eq(&self, other: &Self) -> (equal: bool) {
        let same_kind = match (&self.variant, &other.variant) {
            (PortVariant::InBound(_), PortVariant::InBound(_)) => true,
            (PortVariant::InOutBound(_), PortVariant::InOutBound(_)) => true,
            (PortVariant::OutBound(_), PortVariant::OutBound(_)) => true,
            _ => false,
        };
        self.name == other.name && same_kind && self.variant.value().same_type(
            &other.variant.value(),
        )
    }
}

impl PartialEqSpecImpl for Port {
    open spec fn obeys_eq_spec() -> bool {
        true
    }

    open spec fn eq_spec(&self, other: &Self) -> bool {
        &&& self.label() == other.label()
        &&& Port::same_kind(self.bound(), other.bound())
        &&& self.bound().cell().value_type() == other.bound().cell().value_type()
    }
}

/// What a reading gives to one who asks for a value and not for the reason
/// why there is none: the value, if the reading went well and found one.
pub fn value_or_none<T>(read: Result<Option<T>, Error>) -> (value: Option<T>)
    ensures
        value == match read {
            Ok(value) => value,
            Err(_) => None,
        },
{
    match read {
        Ok(value) => value,
        Err(_) => None,
    }
}

/// The names and bound ports of a list of ports.
pub open spec fn port_entries(ports: Seq<Port>) -> Entries {
    Seq::new(ports.len(), |i: int| (ports[i].label(), ports[i].bound()))
}

/// The index of the first of `ports` under `name`, if there is one.
pub fn first_port_position(ports: &[Port], name: &str) -> (found: Option<usize>)
    ensures
        found is Some ==> found->0 < ports@.len() && position_of(port_entries(ports@), name@)
            == Some(found->0 as int),
        found is None ==> position_of(port_entries(ports@), name@) is None,
{
    let mut i: usize = 0;
    while i < ports.len()
        invariant
            i <= ports@.len(),
            forall|j: int| 0 <= j < i ==> (#[trigger] port_entries(ports@)[j]).0 != name@,
        decreases ports@.len() - i,
    {
        if ports[i].has_name(name) {
            proof {
                assert(port_entries(ports@)[i as int].0 == name@);
                lemma_first_is_position(port_entries(ports@), name@, i as int);
            }
            return Some(i);
        }
        i = i + 1;
    }
    proof {
        lemma_absent_has_no_position(port_entries(ports@), name@);
    }
    None
}

/// A change of the bound port of one port changes the bound port of its
/// entry, and nothing else.
pub proof fn lemma_port_entries_update(ports: Seq<Port>, i: int)
    requires
        0 <= i < ports.len(),
    ensures
        forall|port: Port|
            port.label() == ports[i].label() ==> #[trigger] port_entries(ports.update(i, port))
                == port_entries(ports).update(i, (ports[i].label(), port.bound())),
{
    assert forall|port: Port| port.label() == ports[i].label() implies #[trigger] port_entries(
        ports.update(i, port),
    ) == port_entries(ports).update(i, (ports[i].label(), port.bound())) by {
        assert(port_entries(ports.update(i, port)) =~= port_entries(ports).update(
            i,
            (ports[i].label(), port.bound()),
        ));
    }
}

} // verus!

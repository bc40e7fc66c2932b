//! What typed ports offer.

use crate::any_port_value::AnyPortValue;
use crate::bind::port_value::{PortValueReadGuard, PortValueWriteGuard};
use crate::bind::{binding_of, cell_after_binding};
use crate::collections::{
    has_name, lemma_position_of, lemma_same_entry, lookup, port_rebound_at, position_of, Entries,
};
use crate::error::Error;
use crate::guards::{PortReadGuard, PortWriteGuard};
use crate::port::Port;
use crate::port_variant::PortVariant;
use vstd::prelude::*;

verus! {

/// What all typed ports offer.
pub trait PortCommons {
    /// The name of the port. It is unique within what provides the port.
    spec fn port_name(&self) -> Seq<char>;

    /// The name of the port.
    fn name(&self) -> (name: String)
        ensures
            name@ == self.port_name(),
    ;

    /// The count of changes of the port's value at the time of the call. `0`
    /// says that the value has never been set or changed.
    fn sequence_number(&self) -> u32;
}

/// What a typed port offers that can be read.
pub trait InPort<T>: PortCommons {
    /// A clone of the value at the time of the call, if there is one.
    fn get(&self) -> Option<T> where T: Clone;

    /// A read guard on the value. Waits while the value is locked for writing.
    ///
    /// Fails with [`Error::NoValueSet`], and only with it, if the port holds
    /// no value.
    fn read(&self) -> (r: Result<PortReadGuard<'_, T>, Error>)
        ensures
            r is Err ==> r->Err_0 == Error::NoValueSet,
    ;

    /// A read guard on the value, without waiting.
    ///
    /// Fails with [`Error::IsLocked`] if the value is locked for writing, and
    /// with [`Error::NoValueSet`] if the port holds no value.
    fn try_read(&self) -> (r: Result<PortReadGuard<'_, T>, Error>)
        ensures
            r is Err ==> r->Err_0 == Error::IsLocked || r->Err_0 == Error::NoValueSet,
    ;

    /// Takes the value out of the port, which holds none afterwards.
    fn take(&self) -> Option<T>;
}

/// What a typed port offers that can exchange its value.
pub trait InOutPort<T> {
    /// Sets a new value and hands back the previous one.
    fn replace(&self, value: T) -> Option<T>;
}

/// What a typed port offers that can be written.
pub trait OutPort<T>: PortCommons {
    /// Sets a new value.
    fn set(&self, value: T);

    /// A write guard on the value. Waits while the value is locked.
    ///
    /// Fails with [`Error::NoValueSet`], and only with it, if the port holds
    /// no value.
    fn write(&self) -> (r: Result<PortWriteGuard<'_, T>, Error>)
        ensures
            r is Err ==> r->Err_0 == Error::NoValueSet,
            r is Ok ==> !r->Ok_0.modified(),
    ;

    /// A write guard on the value, without waiting.
    ///
    /// Fails with [`Error::IsLocked`] if the value is locked, and with
    /// [`Error::NoValueSet`] if the port holds no value.
    fn try_write(&self) -> (r: Result<PortWriteGuard<'_, T>, Error>)
        ensures
            r is Err ==> r->Err_0 == Error::IsLocked || r->Err_0 == Error::NoValueSet,
            r is Ok ==> !r->Ok_0.modified(),
    ;
}

/// Something that provides ports, each under its name.
pub trait PortProvider {
    /// The names and the bound ports that are provided, in their order.
    spec fn provided(&self) -> Entries;

    /// The port under `name`, if there is one.
    fn find(&self, name: &str) -> (port: Option<&Port>)
        ensures
            match lookup(self.provided(), name@) {
                Some(found) => port is Some && port->0.bound() == found && port->0.label()
                    == name@,
                None => port is None,
            },
    ;

    /// The bound port under `name`, for changes, if there is one. Names and
    /// the other ports stay as they are.
    fn find_mut(&mut self, name: &str) -> (port: Option<&mut PortVariant>)
        ensures
            match position_of(old(self).provided(), name@) {
                Some(i) => port is Some
                    && *port->0 == old(self).provided()[i].1
                    && final(self).provided() == old(self).provided().update(
                    i,
                    (name@, *final(port->0)),
                ),
                None => port is None && final(self).provided() == old(self).provided(),
            },
    ;
}

/// What a binding by names gives: `source` is the port found under the name
/// in the other provider, `destination` the one found under the name in this
/// provider, and the two marks say whether each was made for values of the
/// wanted type. The source is looked at first, then the destination.
pub open spec fn binding_by_names(
    source: Option<PortVariant>,
    source_of_type: bool,
    destination: Option<PortVariant>,
    destination_of_type: bool,
) -> Result<(), Error> {
    match source {
        None => Err(Error::OtherNotFound),
        Some(source) => if !source.writable() {
            Err(Error::WrongPortType)
        } else if !source_of_type {
            Err(Error::WrongDataType)
        } else {
            match destination {
                None => Err(Error::NotFound),
                Some(destination) => if !destination.readable() {
                    Err(Error::WrongPortType)
                } else if !destination_of_type {
                    Err(Error::WrongDataType)
                } else {
                    binding_of(destination.cell(), source.cell())
                },
            }
        },
    }
}

/// The port behind a reference, if there is one.
pub open spec fn found(port: Option<&PortVariant>) -> Option<PortVariant> {
    match port {
        Some(port) => Some(*port),
        None => None,
    }
}

/// Decides what a binding by names gives, for what was found under the two
/// names and for what the tests of the two ports' types have said.
pub fn decide_binding(
    source: Option<&PortVariant>,
    source_of_type: bool,
    destination: Option<&PortVariant>,
    destination_of_type: bool,
) -> (r: Result<(), Error>)
    ensures
        r == binding_by_names(
            found(source),
            source_of_type,
            found(destination),
            destination_of_type,
        ),
{
    match source {
        None => Err(Error::OtherNotFound),
        Some(source) => if !source.is_writable() {
            Err(Error::WrongPortType)
        } else if !source_of_type {
            Err(Error::WrongDataType)
        } else {
            match destination {
                None => Err(Error::NotFound),
                Some(destination) => if !destination.is_readable() {
                    Err(Error::WrongPortType)
                } else if !destination_of_type {
                    Err(Error::WrongDataType)
                } else if destination.cell_ref().same_type(source.cell_ref()) {
                    Ok(())
                } else {
                    Err(Error::WrongDataType)
                },
            }
        },
    }
}

/// The decision on a binding by names, case by case:
/// - a missing source gives [`Error::OtherNotFound`], and nothing else does;
/// - a source that is not writable gives [`Error::WrongPortType`];
/// - a writable source that was not made for the wanted type gives
///   [`Error::WrongDataType`];
/// - a fitting source and a missing destination give [`Error::NotFound`],
///   and nothing else does;
/// - a fitting source and a destination that is not readable give
///   [`Error::WrongPortType`], and for a writable source nothing else does;
/// - a fitting source and a readable destination that was not made for the
///   wanted type give [`Error::WrongDataType`];
/// - a writable source and a readable destination on cells for values of
///   different types give [`Error::WrongDataType`], whatever the tests say;
/// - a fitting source and a fitting destination on cells for values of one
///   type are bound, and nothing else is.
pub proof fn lemma_binding_by_names(
    source: Option<PortVariant>,
    source_of_type: bool,
    destination: Option<PortVariant>,
    destination_of_type: bool,
)
    ensures
        ({
            let r = binding_by_names(source, source_of_type, destination, destination_of_type);
            let fitting_source = source is Some && source->0.writable() && source_of_type;
            let fitting_destination = destination is Some && destination->0.readable()
                && destination_of_type;
            let one_type = binding_of(destination->0.cell(), source->0.cell()) is Ok;
            &&& source is None <==> r == Err::<(), Error>(Error::OtherNotFound)
            &&& source is Some && !source->0.writable() ==> r == Err::<(), Error>(
                Error::WrongPortType,
            )
            &&& source is Some && source->0.writable() && !source_of_type ==> r == Err::<
                (),
                Error,
            >(Error::WrongDataType)
            &&& fitting_source && destination is None <==> r == Err::<(), Error>(
                Error::NotFound,
            )
            &&& fitting_source && destination is Some && !destination->0.readable() ==> r
                == Err::<(), Error>(Error::WrongPortType)
            &&& source is Some && source->0.writable() && r == Err::<(), Error>(
                Error::WrongPortType,
            ) ==> destination is Some && !destination->0.readable()
            &&& fitting_source && destination is Some && destination->0.readable()
                && !destination_of_type ==> r == Err::<(), Error>(Error::WrongDataType)
            &&& source is Some && source->0.writable() && destination is Some
                && destination->0.readable() && !one_type ==> r == Err::<(), Error>(
                Error::WrongDataType,
            )
            &&& fitting_source && fitting_destination && one_type <==> r is Ok
        }),
{
}

/// Access by name to the ports that something provides.
///
/// The kind of a port does not matter for the access to its value: whoever
/// provides the ports may read and write all of them. It matters for binding.
pub trait PortAccessors: PortProvider {
    /// Binds the port `in_port` of this provider to the value of the port
    /// `out_port` of `out_list`: the value is made at `out_port` and used at
    /// `in_port`.
    ///
    /// The result is what [`binding_by_names`] gives for the two ports that
    /// are found and for what the tests of their types say. So it fails, and
    /// leaves this provider as it is,
    /// - with [`Error::OtherNotFound`] if `out_list` has no port `out_port`,
    /// - with [`Error::WrongPortType`] if that port is not writable,
    /// - with [`Error::WrongDataType`] if that port was not made for values
    ///   of type `T`,
    /// - with [`Error::NotFound`] if this provider has no port `in_port`,
    /// - with [`Error::WrongPortType`] if that port is not readable,
    /// - with [`Error::WrongDataType`] if that port was not made for values
    ///   of type `T`.
    fn bind_to<T: AnyPortValue, P: PortProvider>(
        &mut self,
        in_port: &str,
        out_list: &P,
        out_port: &str,
    ) -> (r: Result<(), Error>)
        ensures
            exists|source_of_type: bool, destination_of_type: bool|
                r == #[trigger] binding_by_names(
                    lookup(out_list.provided(), out_port@),
                    source_of_type,
                    lookup(old(self).provided(), in_port@),
                    destination_of_type,
                ),
            match lookup(out_list.provided(), out_port@) {
                None => r == Err::<(), Error>(Error::OtherNotFound),
                Some(source) => {
                    &&& !source.writable() ==> r == Err::<(), Error>(Error::WrongPortType)
                    &&& r != Err::<(), Error>(Error::OtherNotFound)
                    &&& r == Err::<(), Error>(Error::NotFound) ==> source.writable()
                        && !has_name(old(self).provided(), in_port@)
                    &&& source.writable() && r == Err::<(), Error>(Error::WrongPortType)
                        ==> has_name(old(self).provided(), in_port@) && !lookup(
                        old(self).provided(),
                        in_port@,
                    )->0.readable()
                    &&& match lookup(old(self).provided(), in_port@) {
                        None => true,
                        Some(destination) => source.writable() && destination.readable()
                            && binding_of(destination.cell(), source.cell()) is Err ==> r
                            == Err::<(), Error>(Error::WrongDataType),
                    }
                    &&& r is Ok ==> {
                        let i = position_of(old(self).provided(), in_port@);
                        &&& source.writable()
                        &&& i is Some
                        &&& old(self).provided()[i->0].1.readable()
                        &&& binding_of(old(self).provided()[i->0].1.cell(), source.cell()) is Ok
                        &&& port_rebound_at(
                            old(self).provided(),
                            final(self).provided(),
                            i->0,
                            source.cell(),
                        )
                    }
                },
            },
            r is Err ==> final(self).provided() == old(self).provided(),
    {
        proof {
            lemma_position_of(old(self).provided(), in_port@);
            lemma_same_entry(old(self).provided(), in_port@);
        }
        let source = match out_list.find(out_port) {
            Some(port) => Some(port.port()),
            None => None,
        };
        let source_of_type = match source {
            Some(port) => port.is::<T>(),
            None => false,
        };
        let destination = match self.find(in_port) {
            Some(port) => Some(port.port()),
            None => None,
        };
        let destination_of_type = match destination {
            Some(port) => port.is::<T>(),
            None => false,
        };
        let decision = decide_binding(source, source_of_type, destination, destination_of_type);
        proof {
            assert(found(source) == lookup(out_list.provided(), out_port@));
            assert(found(destination) == lookup(old(self).provided(), in_port@));
            lemma_binding_by_names(
                found(source),
                source_of_type,
                found(destination),
                destination_of_type,
            );
        }
        match (decision, source) {
            (Ok(()), Some(source)) => match self.find_mut(in_port) {
                Some(destination) => destination.set_value(source.value()),
                None => {
                    proof {
                        assert(false);
                    }
                    Err(Error::NotFound)
                },
            },
            (Ok(()), None) => {
                proof {
                    assert(false);
                }
                Err(Error::OtherNotFound)
            },
            (Err(e), _) => Err(e),
        }
    }

    /// A clone of the value of the port under `name`.
    ///
    /// Fails with [`Error::NotFound`] if there is no port under `name`, and
    /// else with [`Error::WrongDataType`] if the port was made for another
    /// type than `T`.
    fn get<T: AnyPortValue + Clone>(&self, name: &str) -> (r: Result<Option<T>, Error>)
        ensures
            !has_name(self.provided(), name@) ==> r == Err::<Option<T>, Error>(Error::NotFound),
            has_name(self.provided(), name@) && r is Err ==> r->Err_0 == Error::WrongDataType,
    {
        proof {
            lemma_position_of(self.provided(), name@);
        }
        match self.find(name) {
            Some(port) => port.port().cell_ref().get::<T>(),
            None => Err(Error::NotFound),
        }
    }

    /// A read guard on the value of the port under `name`. Waits while the
    /// value is locked for writing.
    ///
    /// Fails with [`Error::NotFound`] if there is no port under `name`, and
    /// else with [`Error::WrongDataType`] if the port was made for another
    /// type than `T`, and with [`Error::NoValueSet`] if it holds no value.
    fn read<T: AnyPortValue>(&self, name: &str) -> (r: Result<PortValueReadGuard<'_, T>, Error>)
        ensures
            !has_name(self.provided(), name@) ==> r is Err && r->Err_0 == Error::NotFound,
            has_name(self.provided(), name@) && r is Err ==> r->Err_0 == Error::WrongDataType
                || r->Err_0 == Error::NoValueSet,
    {
        proof {
            lemma_position_of(self.provided(), name@);
        }
        match self.find(name) {
            Some(port) => PortValueReadGuard::new(port.port().cell_ref()),
            None => Err(Error::NotFound),
        }
    }

    /// A read guard on the value of the port under `name`, without waiting.
    ///
    /// Fails as [`PortAccessors::read`] does, and with [`Error::IsLocked`] if
    /// the value is locked for writing.
    fn try_read<T: AnyPortValue>(&self, name: &str) -> (r: Result<
        PortValueReadGuard<'_, T>,
        Error,
    >)
        ensures
            !has_name(self.provided(), name@) ==> r is Err && r->Err_0 == Error::NotFound,
            has_name(self.provided(), name@) && r is Err ==> r->Err_0 == Error::IsLocked
                || r->Err_0 == Error::WrongDataType || r->Err_0 == Error::NoValueSet,
    {
        proof {
            lemma_position_of(self.provided(), name@);
        }
        match self.find(name) {
            Some(port) => PortValueReadGuard::try_new(port.port().cell_ref()),
            None => Err(Error::NotFound),
        }
    }

    /// Sets a new value on the port under `name` and hands back the previous
    /// one.
    ///
    /// Fails with [`Error::NotFound`] if there is no port under `name`, and
    /// else with [`Error::WrongDataType`] if the port was made for another
    /// type than `T`.
    fn replace<T: AnyPortValue>(&self, name: &str, value: T) -> (r: Result<Option<T>, Error>)
        ensures
            !has_name(self.provided(), name@) ==> r == Err::<Option<T>, Error>(Error::NotFound),
            has_name(self.provided(), name@) && r is Err ==> r->Err_0 == Error::WrongDataType,
    {
        proof {
            lemma_position_of(self.provided(), name@);
        }
        match self.find(name) {
            Some(port) => port.port().cell_ref().replace(value),
            None => Err(Error::NotFound),
        }
    }

    /// The count of changes of the value of the port under `name`, at the
    /// time of the call.
    ///
    /// Fails with [`Error::NotFound`] if, and only if, there is no port under
    /// `name`.
    fn sequence_number(&self, name: &str) -> (r: Result<u32, Error>)
        ensures
            r is Ok <==> has_name(self.provided(), name@),
            r is Err ==> r->Err_0 == Error::NotFound,
    {
        proof {
            lemma_position_of(self.provided(), name@);
        }
        match self.find(name) {
            Some(port) => Ok(port.port().sequence_number()),
            None => Err(Error::NotFound),
        }
    }

    /// Sets a new value on the port under `name`.
    ///
    /// Fails with [`Error::NotFound`] if there is no port under `name`, and
    /// else with [`Error::WrongDataType`] if the port was made for another
    /// type than `T`.
    fn set<T: AnyPortValue>(&self, name: &str, value: T) -> (r: Result<(), Error>)
        ensures
            !has_name(self.provided(), name@) ==> r == Err::<(), Error>(Error::NotFound),
            has_name(self.provided(), name@) && r is Err ==> r->Err_0 == Error::WrongDataType,
    {
        proof {
            lemma_position_of(self.provided(), name@);
        }
        match self.find(name) {
            Some(port) => port.port().cell_ref().set(value),
            None => Err(Error::NotFound),
        }
    }

    /// Takes the value out of the port under `name`.
    ///
    /// Fails with [`Error::NotFound`] if there is no port under `name`, and
    /// else with [`Error::WrongDataType`] if the port was made for another
    /// type than `T`.
    fn take<T: AnyPortValue>(&self, name: &str) -> (r: Result<Option<T>, Error>)
        ensures
            !has_name(self.provided(), name@) ==> r == Err::<Option<T>, Error>(Error::NotFound),
            has_name(self.provided(), name@) && r is Err ==> r->Err_0 == Error::WrongDataType,
    {
        proof {
            lemma_position_of(self.provided(), name@);
        }
        match self.find(name) {
            Some(port) => port.port().cell_ref().take::<T>(),
            None => Err(Error::NotFound),
        }
    }

    /// A write guard on the value of the port under `name`. Waits while the
    /// value is locked.
    ///
    /// Fails with [`Error::NotFound`] if there is no port under `name`, and
    /// else with [`Error::WrongDataType`] if the port was made for another
    /// type than `T`, and with [`Error::NoValueSet`] if it holds no value.
    fn write<T: AnyPortValue>(&self, name: &str) -> (r: Result<PortValueWriteGuard<'_, T>, Error>)
        ensures
            !has_name(self.provided(), name@) ==> r is Err && r->Err_0 == Error::NotFound,
            has_name(self.provided(), name@) && r is Err ==> r->Err_0 == Error::WrongDataType
                || r->Err_0 == Error::NoValueSet,
            r is Ok ==> !r->Ok_0.modified(),
    {
        proof {
            lemma_position_of(self.provided(), name@);
        }
        match self.find(name) {
            Some(port) => PortValueWriteGuard::new(port.port().cell_ref()),
            None => Err(Error::NotFound),
        }
    }

    /// A write guard on the value of the port under `name`, without waiting.
    ///
    /// Fails as [`PortAccessors::write`] does, and with [`Error::IsLocked`]
    /// if the value is locked.
    fn try_write<T: AnyPortValue>(&self, name: &str) -> (r: Result<
        PortValueWriteGuard<'_, T>,
        Error,
    >)
        ensures
            !has_name(self.provided(), name@) ==> r is Err && r->Err_0 == Error::NotFound,
            has_name(self.provided(), name@) && r is Err ==> r->Err_0 == Error::IsLocked
                || r->Err_0 == Error::WrongDataType || r->Err_0 == Error::NoValueSet,
            r is Ok ==> !r->Ok_0.modified(),
    {
        proof {
            lemma_position_of(self.provided(), name@);
        }
        match self.find(name) {
            Some(port) => PortValueWriteGuard::try_new(port.port().cell_ref()),
            None => Err(Error::NotFound),
        }
    }
}

} // verus!

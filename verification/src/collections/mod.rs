//! Collections of ports, each port under a name.

pub mod port_array;
pub mod port_list;
pub mod port_map;
pub mod port_vec;

use crate::any_port_value::AnyPortValue;
use crate::bind::port_value::{PortValueReadGuard, PortValueWriteGuard};
use crate::bind::{binding_of, cell_after_binding, BindCommons};
use crate::error::Error;
use crate::port_variant::PortVariant;
use vstd::prelude::*;

verus! {

/// The names and ports of a collection, in its order.
pub type Entries = Seq<(Seq<char>, PortVariant)>;

/// The position of the first entry under `name`, if there is one.
pub open spec fn position_of(entries: Entries, name: Seq<char>) -> Option<int>
    decreases entries.len(),
{
    if entries.len() == 0 {
        None
    } else if entries.last().0 == name && position_of(entries.drop_last(), name) is None {
        Some(entries.len() - 1)
    } else {
        position_of(entries.drop_last(), name)
    }
}

/// The port of the first entry under `name`, if there is one.
pub open spec fn lookup(entries: Entries, name: Seq<char>) -> Option<PortVariant> {
    match position_of(entries, name) {
        Some(i) => Some(entries[i].1),
        None => None,
    }
}

/// Whether an entry under `name` exists.
pub open spec fn has_name(entries: Entries, name: Seq<char>) -> bool {
    exists|i: int| 0 <= i < entries.len() && (#[trigger] entries[i]).0 == name
}

/// Whether no name occurs twice.
pub open spec fn names_are_unique(entries: Entries) -> bool {
    forall|i: int, j: int|
        0 <= i < j < entries.len() ==> (#[trigger] entries[i]).0 != (#[trigger] entries[j]).0
}

/// Whether `after` is `before` but for the port at position `i`, which is of
/// the same kind as before and backed by `cell`.
pub open spec fn port_rebound_at(
    before: Entries,
    after: Entries,
    i: int,
    cell: crate::bind::port_value::PortValuePtr,
) -> bool {
    &&& 0 <= i < before.len()
    &&& after.len() == before.len()
    &&& forall|j: int| 0 <= j < before.len() && j != i ==> after[j] == before[j]
    &&& after[i].0 == before[i].0
    &&& before[i].1.same_kind_on(&after[i].1, cell)
}

/// What `position_of` finds is the first entry under the name, and it finds
/// one wherever there is one.
pub proof fn lemma_position_of(entries: Entries, name: Seq<char>)
    ensures
        match position_of(entries, name) {
            Some(i) => 0 <= i < entries.len() && entries[i].0 == name && forall|j: int|
                0 <= j < i ==> (#[trigger] entries[j]).0 != name,
            None => forall|j: int| 0 <= j < entries.len() ==> (#[trigger] entries[j]).0 != name,
        },
        position_of(entries, name) is Some <==> has_name(entries, name),
    decreases entries.len(),
{
    if entries.len() > 0 {
        let front = entries.drop_last();
        lemma_position_of(front, name);
        assert(forall|j: int| 0 <= j < front.len() ==> front[j] == entries[j]);
        match position_of(front, name) {
            Some(i) => {
                assert(entries[i].0 == name);
            },
            None => {
                if entries.last().0 == name {
                    assert(entries[entries.len() - 1].0 == name);
                }
            },
        }
    }
}

/// An entry that is replaced by itself leaves the entries as they are.
pub proof fn lemma_same_entry(entries: Entries, name: Seq<char>)
    ensures
        match position_of(entries, name) {
            Some(i) => entries.update(i, (name, entries[i].1)) == entries,
            None => true,
        },
{
    lemma_position_of(entries, name);
    match position_of(entries, name) {
        Some(i) => {
            assert(entries.update(i, (name, entries[i].1)) =~= entries);
        },
        None => {},
    }
}

/// The first entry under a name is what `position_of` finds.
pub proof fn lemma_first_is_position(entries: Entries, name: Seq<char>, i: int)
    requires
        0 <= i < entries.len(),
        entries[i].0 == name,
        forall|j: int| 0 <= j < i ==> (#[trigger] entries[j]).0 != name,
    ensures
        position_of(entries, name) == Some(i),
{
    lemma_position_of(entries, name);
}

/// Where no entry is under a name, `position_of` finds none.
pub proof fn lemma_absent_has_no_position(entries: Entries, name: Seq<char>)
    requires
        forall|j: int| 0 <= j < entries.len() ==> (#[trigger] entries[j]).0 != name,
    ensures
        position_of(entries, name) is None,
        lookup(entries, name) is None,
{
    lemma_position_of(entries, name);
}

/// A lookup takes the port of the first entry if that one is under the name,
/// and looks through the other entries if it is not.
pub proof fn lemma_lookup_from_the_front(entries: Entries, name: Seq<char>)
    requires
        entries.len() > 0,
    ensures
        lookup(entries, name) == if entries[0].0 == name {
            Some(entries[0].1)
        } else {
            lookup(entries.drop_first(), name)
        },
{
    let rest = entries.drop_first();
    lemma_position_of(entries, name);
    lemma_position_of(rest, name);
    assert(forall|j: int| 0 <= j < rest.len() ==> rest[j] == entries[j + 1]);
    if entries[0].0 == name {
        lemma_first_is_position(entries, name, 0);
    } else {
        match position_of(rest, name) {
            Some(j) => {
                assert forall|k: int| 0 <= k < j + 1 implies (#[trigger] entries[k]).0 != name by {
                    if k > 0 {
                        assert(rest[k - 1] == entries[k]);
                    }
                }
                assert(entries[j + 1] == rest[j]);
                lemma_first_is_position(entries, name, j + 1);
            },
            None => {
                assert forall|k: int| 0 <= k < entries.len() implies (#[trigger] entries[k]).0
                    != name by {
                    if k > 0 {
                        assert(rest[k - 1] == entries[k]);
                    }
                }
                lemma_absent_has_no_position(entries, name);
            },
        }
    }
}

/// A lookup after a new entry was put behind the others finds what it found
/// before, and the new port under a name that was not there.
pub proof fn lemma_lookup_after_push(
    entries: Entries,
    new_name: Seq<char>,
    port: PortVariant,
    name: Seq<char>,
)
    ensures
        lookup(entries.push((new_name, port)), name) == if name == new_name && lookup(
            entries,
            name,
        ) is None {
            Some(port)
        } else {
            lookup(entries, name)
        },
{
    let after = entries.push((new_name, port));
    assert(after.drop_last() =~= entries);
    assert(after.last() == (new_name, port));
    lemma_position_of(entries, name);
    match position_of(entries, name) {
        Some(i) => {
            assert(after[i] == entries[i]);
        },
        None => {},
    }
}

/// A lookup after the port of the first entry under a name was exchanged
/// finds the new port under that name, and what it found before under every
/// other name.
pub proof fn lemma_lookup_after_change(
    entries: Entries,
    changed: Seq<char>,
    port: PortVariant,
    name: Seq<char>,
)
    requires
        position_of(entries, changed) is Some,
    ensures
        lookup(entries.update(position_of(entries, changed)->0, (changed, port)), name) == if name
            == changed {
            Some(port)
        } else {
            lookup(entries, name)
        },
{
    let i = position_of(entries, changed)->0;
    let after = entries.update(i, (changed, port));
    lemma_position_of(entries, changed);
    lemma_position_of(entries, name);
    assert(forall|j: int| 0 <= j < entries.len() ==> (#[trigger] after[j]).0 == entries[j].0);
    match position_of(entries, name) {
        Some(j) => {
            assert forall|k: int| 0 <= k < j implies (#[trigger] after[k]).0 != name by {
                assert(after[k].0 == entries[k].0);
            }
            assert(after[j].0 == name);
            lemma_first_is_position(after, name, j);
            if name != changed {
                assert(j != i);
                assert(after[j] == entries[j]);
            }
        },
        None => {
            assert forall|k: int| 0 <= k < after.len() implies (#[trigger] after[k]).0 != name by {
                assert(after[k].0 == entries[k].0);
            }
            lemma_absent_has_no_position(after, name);
        },
    }
}

/// A new entry under a name that was not there keeps the names unique.
pub proof fn lemma_unique_after_insert(entries: Entries, name: Seq<char>, port: PortVariant)
    requires
        names_are_unique(entries),
        !has_name(entries, name),
    ensures
        names_are_unique(entries.push((name, port))),
{
    let after = entries.push((name, port));
    assert forall|i: int, j: int| 0 <= i < j < after.len() implies (#[trigger] after[i]).0 != (
    #[trigger] after[j]).0 by {
        if j == entries.len() {
            assert(after[i] == entries[i]);
        } else {
            assert(after[i] == entries[i] && after[j] == entries[j]);
        }
    }
}

/// Another port under the same name keeps the names unique.
pub proof fn lemma_unique_after_change(entries: Entries, i: int, port: PortVariant)
    requires
        names_are_unique(entries),
        0 <= i < entries.len(),
    ensures
        names_are_unique(entries.update(i, (entries[i].0, port))),
{
    let after = entries.update(i, (entries[i].0, port));
    assert forall|a: int, b: int| 0 <= a < b < after.len() implies (#[trigger] after[a]).0 != (
    #[trigger] after[b]).0 by {
        assert(after[a].0 == entries[a].0 && after[b].0 == entries[b].0);
    }
}

/// Without one of its entries, a collection keeps its names unique, and the
/// name of that entry is gone.
pub proof fn lemma_unique_after_remove(entries: Entries, i: int)
    requires
        names_are_unique(entries),
        0 <= i < entries.len(),
    ensures
        names_are_unique(entries.remove(i)),
        !has_name(entries.remove(i), entries[i].0),
{
    let after = entries.remove(i);
    assert forall|a: int, b: int| 0 <= a < b < after.len() implies (#[trigger] after[a]).0 != (
    #[trigger] after[b]).0 by {
        let a0 = if a < i { a } else { a + 1 };
        let b0 = if b < i { b } else { b + 1 };
        assert(after[a] == entries[a0] && after[b] == entries[b0]);
    }
    assert forall|a: int| 0 <= a < after.len() implies (#[trigger] after[a]).0 != entries[i].0 by {
        let a0 = if a < i { a } else { a + 1 };
        assert(after[a] == entries[a0]);
    }
}

/// What the question for a port of some type under a name gives, once a port
/// was found under the name: it is there, if it was made for the type, and
/// the question was a wrong one, if it was not.
pub open spec fn contained_of(of_type: bool) -> Result<bool, Error> {
    if of_type {
        Ok(true)
    } else {
        Err(Error::WrongDataType)
    }
}

/// Answers the question for a port of some type under a name, once a port
/// was found under the name, for what the test of its type has said.
pub fn contained(of_type: bool) -> (r: Result<bool, Error>)
    ensures
        r == contained_of(of_type),
{
    if of_type {
        Ok(true)
    } else {
        Err(Error::WrongDataType)
    }
}

/// A collection of ports. Each port is found by its name.
pub trait PortCollection {
    /// The names and ports of the collection, in its order.
    spec fn entries(&self) -> Entries;

    /// The port under `name`, if there is one.
    fn find(&self, name: &str) -> (port: Option<&PortVariant>)
        ensures
            match lookup(self.entries(), name@) {
                Some(found) => port is Some && *port->0 == found,
                None => port is None,
            },
    ;

    /// The port under `name`, for changes, if there is one. Names and the
    /// other ports stay as they are.
    fn find_mut(&mut self, name: &str) -> (port: Option<&mut PortVariant>)
        ensures
            match position_of(old(self).entries(), name@) {
                Some(i) => port is Some
                    && *port->0 == old(self).entries()[i].1
                    && final(self).entries() == old(self).entries().update(
                    i,
                    (name@, *final(port->0)),
                ),
                None => port is None && final(self).entries() == old(self).entries(),
            },
    ;
}

/// A collection of ports that can grow and shrink.
pub trait PortCollectionMut: PortCollection {
    /// Adds `port` under `name`, behind the entries that are there.
    ///
    /// Fails with [`Error::AlreadyInCollection`], and leaves the collection as
    /// it is, if there is a port under `name` already.
    fn insert(&mut self, name: &str, port: PortVariant) -> (r: Result<(), Error>)
        ensures
            has_name(old(self).entries(), name@) ==> r == Err::<(), Error>(
                Error::AlreadyInCollection,
            ) && final(self).entries() == old(self).entries(),
            !has_name(old(self).entries(), name@) ==> r is Ok
                && final(self).entries() == old(self).entries().push((name@, port)),
    ;

    /// Removes the port under `name` and hands back its value of type `T`,
    /// which is taken out of the port's cell.
    ///
    /// Fails with [`Error::NotFound`] if there is no port under `name`, and
    /// with [`Error::WrongDataType`] if it was not made for values of type
    /// `T`. Only a port whose value was taken has left the collection.
    fn remove<T: AnyPortValue>(&mut self, name: &str) -> (r: Result<Option<T>, Error>)
        ensures
            match position_of(old(self).entries(), name@) {
                None => r == Err::<Option<T>, Error>(Error::NotFound) && final(self).entries()
                    == old(self).entries(),
                Some(i) => match r {
                    Ok(_) => final(self).entries() == old(self).entries().remove(i),
                    Err(e) => e == Error::WrongDataType
                        && final(self).entries() == old(self).entries(),
                },
            },
    ;
}

/// Access to the ports of a collection by name, for what all kinds of ports
/// offer.
pub trait PortCollectionAccessorsCommon: PortCollection {
    /// The count of changes of the value of the port under `name`, at the
    /// time of the call.
    ///
    /// Fails with [`Error::NotFound`] if, and only if, there is no port under
    /// `name`.
    fn sequence_number(&self, name: &str) -> (r: Result<u32, Error>)
        ensures
            r is Ok <==> has_name(self.entries(), name@),
            r is Err ==> r->Err_0 == Error::NotFound,
    {
        proof {
            lemma_position_of(self.entries(), name@);
        }
        match self.find(name) {
            Some(port) => Ok(port.sequence_number()),
            None => Err(Error::NotFound),
        }
    }
}

/// Read access to the ports of a collection by name.
pub trait PortCollectionAccessors: PortCollectionAccessorsCommon {
    /// Binds the port `bound` to the value of the port under `name`.
    ///
    /// Fails with [`Error::NotFound`] if there is no port under `name`, and
    /// with [`Error::WrongDataType`] if the two ports were made for values of
    /// different types; `bound` is then left as it is.
    fn give_to_bound<B: BindCommons>(&self, name: &str, bound: &mut B) -> (r: Result<(), Error>)
        ensures
            match lookup(self.entries(), name@) {
                None => r == Err::<(), Error>(Error::NotFound),
                Some(port) => r == binding_of(old(bound).shared_cell(), port.cell())
                    && final(bound).shared_cell() == cell_after_binding(
                    old(bound).shared_cell(),
                    port.cell(),
                ),
            },
            r is Err ==> *final(bound) == *old(bound),
    {
        match self.find(name) {
            Some(port) => bound.use_from_variant(port),
            None => Err(Error::NotFound),
        }
    }

    /// Binds `variant` to the value of the port under `name`.
    ///
    /// Fails with [`Error::NotFound`] if there is no port under `name`, and
    /// with [`Error::WrongDataType`] if the two ports were made for values of
    /// different types; `variant` is then left as it is.
    fn give_to_variant(&self, name: &str, variant: &mut PortVariant) -> (r: Result<(), Error>)
        ensures
            match lookup(self.entries(), name@) {
                None => r == Err::<(), Error>(Error::NotFound),
                Some(port) => r == binding_of(old(variant).cell(), port.cell())
                    && old(variant).same_kind_on(
                    final(variant),
                    cell_after_binding(old(variant).cell(), port.cell()),
                ),
            },
            r is Err ==> *final(variant) == *old(variant),
    {
        match self.find(name) {
            Some(port) => variant.use_from_variant(port),
            None => Err(Error::NotFound),
        }
    }

    /// Binds the port under `other_name` of `other_collection` to the value of
    /// the port under `name` of this collection.
    ///
    /// Fails with [`Error::NotFound`] if there is no port under `name`, with
    /// [`Error::OtherNotFound`] if there is none under `other_name`, and with
    /// [`Error::WrongDataType`] if the two ports were made for values of
    /// different types; the other collection is then left as it is.
    fn give_to_collection<C: PortCollection>(
        &self,
        name: &str,
        other_collection: &mut C,
        other_name: &str,
    ) -> (r: Result<(), Error>)
        ensures
            match (
                lookup(self.entries(), name@),
                position_of(old(other_collection).entries(), other_name@),
            ) {
                (None, _) => r == Err::<(), Error>(Error::NotFound)
                    && final(other_collection).entries() == old(other_collection).entries(),
                (Some(_), None) => r == Err::<(), Error>(Error::OtherNotFound)
                    && final(other_collection).entries() == old(other_collection).entries(),
                (Some(port), Some(i)) => {
                    let other = old(other_collection).entries()[i].1;
                    &&& r == binding_of(other.cell(), port.cell())
                    &&& port_rebound_at(
                        old(other_collection).entries(),
                        final(other_collection).entries(),
                        i,
                        cell_after_binding(other.cell(), port.cell()),
                    )
                },
            },
            r is Err ==> final(other_collection).entries() == old(other_collection).entries(),
    {
        proof {
            lemma_position_of(old(other_collection).entries(), other_name@);
            lemma_same_entry(old(other_collection).entries(), other_name@);
        }
        match self.find(name) {
            None => Err(Error::NotFound),
            Some(port) => match other_collection.find_mut(other_name) {
                None => Err(Error::OtherNotFound),
                Some(variant) => variant.use_from_variant(port),
            },
        }
    }

    /// Whether there is a port under `name`.
    fn contains_name(&self, name: &str) -> (b: bool)
        ensures
            b == has_name(self.entries(), name@),
    {
        proof {
            lemma_position_of(self.entries(), name@);
        }
        self.find(name).is_some()
    }

    /// Whether there is a port under `name`, which must then be one for values
    /// of type `T`.
    ///
    /// Fails with [`Error::WrongDataType`], and only with it, if the port
    /// under `name` was made for another type than `T`.
    fn contains<T: AnyPortValue>(&self, name: &str) -> (r: Result<bool, Error>)
        ensures
            !has_name(self.entries(), name@) ==> r == Ok::<bool, Error>(false),
            has_name(self.entries(), name@) ==> r == Ok::<bool, Error>(true) || r == Err::<
                bool,
                Error,
            >(Error::WrongDataType),
    {
        proof {
            lemma_position_of(self.entries(), name@);
        }
        match self.find(name) {
            Some(port) => contained(port.is::<T>()),
            None => Ok(false),
        }
    }

    /// A clone of the value of the port under `name`.
    ///
    /// Fails with [`Error::NotFound`] if there is no port under `name`, with
    /// [`Error::WrongPortType`] if the port is not readable, and with
    /// [`Error::WrongDataType`] if it was made for another type than `T`.
    fn get<T: AnyPortValue + Clone>(&self, name: &str) -> (r: Result<Option<T>, Error>)
        ensures
            match lookup(self.entries(), name@) {
                None => r == Err::<Option<T>, Error>(Error::NotFound),
                Some(port) => {
                    &&& !port.readable() ==> r == Err::<Option<T>, Error>(Error::WrongPortType)
                    &&& port.readable() && r is Err ==> r->Err_0 == Error::WrongDataType
                },
            },
    {
        match self.find(name) {
            Some(port) => port.get(),
            None => Err(Error::NotFound),
        }
    }

    /// A read guard on the value of the port under `name`. Waits while the
    /// value is locked for writing.
    ///
    /// Fails with [`Error::NotFound`] if there is no port under `name`, with
    /// [`Error::WrongPortType`] if the port is not readable, with
    /// [`Error::WrongDataType`] if it was made for another type than `T`, and
    /// with [`Error::NoValueSet`] if it holds no value.
    fn read<T: AnyPortValue>(&self, name: &str) -> (r: Result<PortValueReadGuard<'_, T>, Error>)
        ensures
            match lookup(self.entries(), name@) {
                None => r is Err && r->Err_0 == Error::NotFound,
                Some(port) => {
                    &&& !port.readable() ==> r is Err && r->Err_0 == Error::WrongPortType
                    &&& port.readable() && r is Err ==> r->Err_0 == Error::WrongDataType
                        || r->Err_0 == Error::NoValueSet
                },
            },
    {
        match self.find(name) {
            Some(port) => port.read(),
            None => Err(Error::NotFound),
        }
    }

    /// A read guard on the value of the port under `name`, without waiting.
    ///
    /// Fails as [`PortCollectionAccessors::read`] does, and with
    /// [`Error::IsLocked`] if the value is locked for writing.
    fn try_read<T: AnyPortValue>(&self, name: &str) -> (r: Result<
        PortValueReadGuard<'_, T>,
        Error,
    >)
        ensures
            match lookup(self.entries(), name@) {
                None => r is Err && r->Err_0 == Error::NotFound,
                Some(port) => {
                    &&& !port.readable() ==> r is Err && r->Err_0 == Error::WrongPortType
                    &&& port.readable() && r is Err ==> r->Err_0 == Error::IsLocked || r->Err_0
                        == Error::WrongDataType || r->Err_0 == Error::NoValueSet
                },
            },
    {
        match self.find(name) {
            Some(port) => port.try_read(),
            None => Err(Error::NotFound),
        }
    }

    /// A write guard on the value of the port under `name`. Waits while the
    /// value is locked.
    ///
    /// Fails with [`Error::NotFound`] if there is no port under `name`, with
    /// [`Error::WrongPortType`] if the port is not writable, with
    /// [`Error::WrongDataType`] if it was made for another type than `T`, and
    /// with [`Error::NoValueSet`] if it holds no value.
    fn write<T: AnyPortValue>(&self, name: &str) -> (r: Result<PortValueWriteGuard<'_, T>, Error>)
        ensures
            match lookup(self.entries(), name@) {
                None => r is Err && r->Err_0 == Error::NotFound,
                Some(port) => {
                    &&& !port.writable() ==> r is Err && r->Err_0 == Error::WrongPortType
                    &&& port.writable() && r is Err ==> r->Err_0 == Error::WrongDataType
                        || r->Err_0 == Error::NoValueSet
                },
            },
            r is Ok ==> !r->Ok_0.modified(),
    {
        match self.find(name) {
            Some(port) => port.write(),
            None => Err(Error::NotFound),
        }
    }

    /// A write guard on the value of the port under `name`, without waiting.
    ///
    /// Fails as [`PortCollectionAccessors::write`] does, and with
    /// [`Error::IsLocked`] if the value is locked.
    fn try_write<T: AnyPortValue>(&self, name: &str) -> (r: Result<
        PortValueWriteGuard<'_, T>,
        Error,
    >)
        ensures
            match lookup(self.entries(), name@) {
                None => r is Err && r->Err_0 == Error::NotFound,
                Some(port) => {
                    &&& !port.writable() ==> r is Err && r->Err_0 == Error::WrongPortType
                    &&& port.writable() && r is Err ==> r->Err_0 == Error::IsLocked || r->Err_0
                        == Error::WrongDataType || r->Err_0 == Error::NoValueSet
                },
            },
            r is Ok ==> !r->Ok_0.modified(),
    {
        match self.find(name) {
            Some(port) => port.try_write(),
            None => Err(Error::NotFound),
        }
    }
}

/// Write access to the ports of a collection by name.
pub trait PortCollectionAccessorsMut: PortCollectionAccessors {
    /// Binds the port under `name` to the value of the port `bound`.
    ///
    /// Fails with [`Error::NotFound`] if there is no port under `name`, and
    /// with [`Error::WrongDataType`] if the two ports were made for values of
    /// different types; the collection is then left as it is.
    fn use_from_bound<B: BindCommons>(&mut self, name: &str, bound: &B) -> (r: Result<(), Error>)
        ensures
            match position_of(old(self).entries(), name@) {
                None => r == Err::<(), Error>(Error::NotFound),
                Some(i) => {
                    let own = old(self).entries()[i].1;
                    &&& r == binding_of(own.cell(), bound.shared_cell())
                    &&& port_rebound_at(
                        old(self).entries(),
                        final(self).entries(),
                        i,
                        cell_after_binding(own.cell(), bound.shared_cell()),
                    )
                },
            },
            r is Err ==> final(self).entries() == old(self).entries(),
    {
        proof {
            lemma_position_of(old(self).entries(), name@);
            lemma_same_entry(old(self).entries(), name@);
        }
        match self.find_mut(name) {
            Some(port) => port.use_from_bound(bound),
            None => Err(Error::NotFound),
        }
    }

    /// Binds the port under `name` to the value of `variant`.
    ///
    /// Fails with [`Error::NotFound`] if there is no port under `name`, and
    /// with [`Error::WrongDataType`] if the two ports were made for values of
    /// different types; the collection is then left as it is.
    fn use_from_variant(&mut self, name: &str, variant: &PortVariant) -> (r: Result<(), Error>)
        ensures
            match position_of(old(self).entries(), name@) {
                None => r == Err::<(), Error>(Error::NotFound)
                    && final(self).entries() == old(self).entries(),
                Some(i) => {
                    let own = old(self).entries()[i].1;
                    &&& r == binding_of(own.cell(), variant.cell())
                    &&& port_rebound_at(
                        old(self).entries(),
                        final(self).entries(),
                        i,
                        cell_after_binding(own.cell(), variant.cell()),
                    )
                },
            },
            r is Err ==> final(self).entries() == old(self).entries(),
    {
        proof {
            lemma_position_of(old(self).entries(), name@);
            lemma_same_entry(old(self).entries(), name@);
        }
        match self.find_mut(name) {
            Some(port) => port.use_from_variant(variant),
            None => Err(Error::NotFound),
        }
    }

    /// Binds the port under `name` to the value of the port under
    /// `other_name` of `other_collection`.
    ///
    /// Fails with [`Error::NotFound`] if there is no port under `name`, with
    /// [`Error::OtherNotFound`] if there is none under `other_name`, and with
    /// [`Error::WrongDataType`] if the two ports were made for values of
    /// different types; the collection is then left as it is.
    fn use_from_collection<C: PortCollection>(
        &mut self,
        name: &str,
        other_collection: &C,
        other_name: &str,
    ) -> (r: Result<(), Error>)
        ensures
            match (
                position_of(old(self).entries(), name@),
                lookup(other_collection.entries(), other_name@),
            ) {
                (None, _) => r == Err::<(), Error>(Error::NotFound) && final(self).entries()
                    == old(self).entries(),
                (Some(_), None) => r == Err::<(), Error>(Error::OtherNotFound)
                    && final(self).entries() == old(self).entries(),
                (Some(i), Some(port)) => {
                    let own = old(self).entries()[i].1;
                    &&& r == binding_of(own.cell(), port.cell())
                    &&& port_rebound_at(
                        old(self).entries(),
                        final(self).entries(),
                        i,
                        cell_after_binding(own.cell(), port.cell()),
                    )
                },
            },
            r is Err ==> final(self).entries() == old(self).entries(),
    {
        proof {
            lemma_position_of(old(self).entries(), name@);
            lemma_same_entry(old(self).entries(), name@);
        }
        match self.find_mut(name) {
            None => Err(Error::NotFound),
            Some(own) => match other_collection.find(other_name) {
                None => Err(Error::OtherNotFound),
                Some(port) => own.use_from_variant(port),
            },
        }
    }

    /// Sets a new value on the port under `name` and hands back the previous
    /// one.
    ///
    /// Fails with [`Error::NotFound`] if there is no port under `name`, with
    /// [`Error::WrongPortType`] if the port is not `InOutBound`, and with
    /// [`Error::WrongDataType`] if it was made for another type than `T`.
    fn replace<T: AnyPortValue>(&mut self, name: &str, value: T) -> (r: Result<Option<T>, Error>)
        ensures
            match position_of(old(self).entries(), name@) {
                None => r == Err::<Option<T>, Error>(Error::NotFound) && final(self).entries()
                    == old(self).entries(),
                Some(i) => {
                    let own = old(self).entries()[i].1;
                    &&& !own.exchangeable() ==> r == Err::<Option<T>, Error>(
                        Error::WrongPortType,
                    )
                    &&& own.exchangeable() && r is Err ==> r->Err_0 == Error::WrongDataType
                },
            },
            final(self).entries() == old(self).entries(),
    {
        proof {
            lemma_position_of(old(self).entries(), name@);
            lemma_same_entry(old(self).entries(), name@);
        }
        match self.find_mut(name) {
            Some(port) => port.replace(value),
            None => Err(Error::NotFound),
        }
    }

    /// Sets a new value on the port under `name`.
    ///
    /// Fails with [`Error::NotFound`] if there is no port under `name`, with
    /// [`Error::WrongPortType`] if the port is not writable, and with
    /// [`Error::WrongDataType`] if it was made for another type than `T`.
    fn set<T: AnyPortValue>(&mut self, name: &str, value: T) -> (r: Result<(), Error>)
        ensures
            match position_of(old(self).entries(), name@) {
                None => r == Err::<(), Error>(Error::NotFound)
                    && final(self).entries() == old(self).entries(),
                Some(i) => {
                    let own = old(self).entries()[i].1;
                    &&& !own.writable() ==> r == Err::<(), Error>(Error::WrongPortType)
                    &&& own.writable() && r is Err ==> r->Err_0 == Error::WrongDataType
                },
            },
            final(self).entries() == old(self).entries(),
    {
        proof {
            lemma_position_of(old(self).entries(), name@);
            lemma_same_entry(old(self).entries(), name@);
        }
        match self.find_mut(name) {
            Some(port) => port.set(value),
            None => Err(Error::NotFound),
        }
    }

    /// Takes the value out of the port under `name`.
    ///
    /// Fails with [`Error::NotFound`] if there is no port under `name`, with
    /// [`Error::WrongPortType`] if the port is not `InOutBound`, and with
    /// [`Error::WrongDataType`] if it was made for another type than `T`.
    fn take<T: AnyPortValue>(&mut self, name: &str) -> (r: Result<Option<T>, Error>)
        ensures
            match position_of(old(self).entries(), name@) {
                None => r == Err::<Option<T>, Error>(Error::NotFound) && final(self).entries()
                    == old(self).entries(),
                Some(i) => {
                    let own = old(self).entries()[i].1;
                    &&& !own.exchangeable() ==> r == Err::<Option<T>, Error>(
                        Error::WrongPortType,
                    )
                    &&& own.exchangeable() && r is Err ==> r->Err_0 == Error::WrongDataType
                },
            },
            final(self).entries() == old(self).entries(),
    {
        proof {
            lemma_position_of(old(self).entries(), name@);
            lemma_same_entry(old(self).entries(), name@);
        }
        match self.find_mut(name) {
            Some(port) => port.take(),
            None => Err(Error::NotFound),
        }
    }
}

/// Something that provides a collection of ports.
pub trait PortCollectionProvider {
    /// The kind of collection that is provided.
    type Collection: PortCollectionAccessorsMut;

    /// The provided ports, for reading.
    fn provided_ports(&self) -> &Self::Collection;

    /// The provided ports, for writing and binding.
    fn provided_ports_mut(&mut self) -> &mut Self::Collection;

    /// The provided collection.
    fn port_collection(&self) -> &Self::Collection;
}

/// Something that provides a collection of ports that can grow and shrink.
pub trait PortCollectionProviderMut {
    /// The kind of collection that is provided.
    type Collection: PortCollectionMut;

    /// The provided collection, for changes.
    fn port_collection_mut(&mut self) -> &mut Self::Collection;
}

} // verus!

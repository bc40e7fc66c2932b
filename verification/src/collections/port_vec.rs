//! An extendable unsorted collection of ports.

use crate::any_port_value::AnyPortValue;
use crate::collections::{
    has_name, lemma_absent_has_no_position, lemma_first_is_position, lemma_position_of, lookup,
    position_of, Entries, PortCollection, PortCollectionAccessors, PortCollectionAccessorsCommon,
    PortCollectionAccessorsMut, PortCollectionMut,
};
use crate::error::Error;
use crate::names::{same_name, vec_from_array};
use crate::port_variant::PortVariant;
use vstd::prelude::*;

verus! {

/// The names and ports of a list of entries.
pub open spec fn entries_of(items: Seq<(String, PortVariant)>) -> Entries {
    Seq::new(items.len(), |i: int| (items[i].0@, items[i].1))
}

/// The index of the first of `items` under `name`, if there is one.
pub fn first_position(items: &[(String, PortVariant)], name: &str) -> (found: Option<usize>)
    ensures
        found is Some ==> found->0 < items@.len() && position_of(entries_of(items@), name@)
            == Some(found->0 as int),
        found is None ==> position_of(entries_of(items@), name@) is None,
{
    let mut i: usize = 0;
    while i < items.len()
        invariant
            i <= items@.len(),
            forall|j: int| 0 <= j < i ==> (#[trigger] entries_of(items@)[j]).0 != name@,
        decreases items@.len() - i,
    {
        if same_name(items[i].0.as_str(), name) {
            proof {
                assert(entries_of(items@)[i as int].0 == name@);
                lemma_first_is_position(entries_of(items@), name@, i as int);
            }
            return Some(i);
        }
        i = i + 1;
    }
    proof {
        lemma_absent_has_no_position(entries_of(items@), name@);
    }
    None
}

/// Ends the removal of the item at index `i`, whose value was to be taken
/// out of its port: `taken` is what the taking has got. The item leaves if,
/// and only if, its value was taken; the result is what the taking has got.
pub fn finish_remove<T>(
    items: &mut Vec<(String, PortVariant)>,
    i: usize,
    taken: Result<Option<T>, Error>,
) -> (r: Result<Option<T>, Error>)
    ensures
        r == taken,
        taken is Ok && i < old(items)@.len() ==> entries_of(final(items)@) == entries_of(
            old(items)@,
        ).remove(i as int),
        taken is Err || i >= old(items)@.len() ==> final(items)@ == old(items)@,
{
    match taken {
        Ok(value) => {
            if i < items.len() {
                let _ = items.remove(i);
                proof {
                    assert(entries_of(items@) =~= entries_of(old(items)@).remove(i as int));
                }
            }
            Ok(value)
        },
        Err(e) => Err(e),
    }
}

/// A change of the port of one item changes the port of its entry, and
/// nothing else.
pub proof fn lemma_entries_update(items: Seq<(String, PortVariant)>, i: int)
    requires
        0 <= i < items.len(),
    ensures
        forall|port: PortVariant| #[trigger]
            entries_of(items.update(i, (items[i].0, port))) == entries_of(items).update(
                i,
                (items[i].0@, port),
            ),
{
    assert forall|port: PortVariant| #[trigger]
        entries_of(items.update(i, (items[i].0, port))) == entries_of(items).update(
            i,
            (items[i].0@, port),
        ) by {
        assert(entries_of(items.update(i, (items[i].0, port))) =~= entries_of(items).update(
            i,
            (items[i].0@, port),
        ));
    }
}

/// An extendable unsorted list of [`PortVariant`]s, each under its name.
#[derive(Debug)]
pub struct PortVec(Vec<(String, PortVariant)>);

impl PortVec {
    /// An empty list with room for `size` ports.
    pub fn with_capacity(size: usize) -> (list: Self)
        ensures
            list.entries() == Entries::empty(),
    {
        let list = PortVec(Vec::with_capacity(size));
        assert(list.entries() =~= Entries::empty());
        list
    }

    /// A list of the entries of `array`, in their order.
    pub fn from_array<const N: usize>(array: [(String, PortVariant); N]) -> (list: Self)
        ensures
            list.entries() == entries_of(array@),
    {
        PortVec(vec_from_array(array))
    }

    /// Moves all ports of `other` behind the ports of this list. The other
    /// list is empty afterwards.
    pub fn append(&mut self, other: &mut PortVec)
        ensures
            final(self).entries() == old(self).entries() + old(other).entries(),
            final(other).entries() == Entries::empty(),
    {
        self.0.append(&mut other.0);
        proof {
            assert(self.entries() =~= old(self).entries() + old(other).entries());
            assert(other.entries() =~= Entries::empty());
        }
    }

    /// The number of ports.
    pub fn len(&self) -> (n: usize)
        ensures
            n == self.entries().len(),
    {
        self.0.len()
    }

    /// Whether the list holds no port.
    pub fn is_empty(&self) -> (b: bool)
        ensures
            b == (self.entries().len() == 0),
    {
        self.0.len() == 0
    }
}

impl Default for PortVec {
    fn default() -> (list: Self)
        ensures
            list.entries() == Entries::empty(),
    {
        let list = PortVec(Vec::new());
        assert(list.entries() =~= Entries::empty());
        list
    }
}

impl PortCollection for PortVec {
    closed spec fn entries(&self) -> Entries {
        entries_of(self.0@)
    }

    fn find(&self, name: &str) -> (port: Option<&PortVariant>) {
        match first_position(self.0.as_slice(), name) {
            Some(i) => Some(&self.0[i].1),
            None => None,
        }
    }

    fn find_mut(&mut self, name: &str) -> (port: Option<&mut PortVariant>) {
        match first_position(self.0.as_slice(), name) {
            Some(i) => {
                proof {
                    lemma_position_of(entries_of(self.0@), name@);
                    lemma_entries_update(self.0@, i as int);
                }
                Some(&mut self.0[i].1)
            },
            None => None,
        }
    }
}

impl PortCollectionMut for PortVec {
    fn insert(&mut self, name: &str, port: PortVariant) -> (r: Result<(), Error>) {
        proof {
            lemma_position_of(self.entries(), name@);
        }
        if first_position(self.0.as_slice(), name).is_some() {
            Err(Error::AlreadyInCollection)
        } else {
            self.0.push((name.to_owned(), port));
            proof {
                assert(self.entries() =~= old(self).entries().push((name@, port)));
            }
            Ok(())
        }
    }

    fn remove<T: AnyPortValue>(&mut self, name: &str) -> (r: Result<Option<T>, Error>) {
        match first_position(self.0.as_slice(), name) {
            None => Err(Error::NotFound),
            Some(i) => {
                let taken = self.0[i].1.cell_ref().take::<T>();
                finish_remove(&mut self.0, i, taken)
            },
        }
    }
}

impl PortCollectionAccessorsCommon for PortVec {

}

impl PortCollectionAccessors for PortVec {

}

impl PortCollectionAccessorsMut for PortVec {

}

} // verus!

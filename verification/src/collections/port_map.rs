//! An extendable collection of ports in which no name occurs twice.

use crate::any_port_value::AnyPortValue;
use crate::collections::port_vec::{
    entries_of, finish_remove, first_position, lemma_entries_update,
};
use crate::collections::{
    has_name, lemma_lookup_after_change, lemma_lookup_after_push, lemma_lookup_from_the_front,
    lemma_position_of, lemma_unique_after_change, lemma_unique_after_insert,
    lemma_unique_after_remove, lookup, names_are_unique, position_of, Entries, PortCollection,
    PortCollectionAccessors, PortCollectionAccessorsCommon, PortCollectionAccessorsMut,
    PortCollectionMut,
};
use crate::error::Error;
use crate::names::vec_from_array;
use crate::port_variant::PortVariant;
use vstd::prelude::*;

verus! {

/// The port of the last entry under `name`, if there is one.
pub open spec fn last_lookup(entries: Entries, name: Seq<char>) -> Option<PortVariant>
    decreases entries.len(),
{
    if entries.len() == 0 {
        None
    } else {
        match last_lookup(entries.drop_first(), name) {
            Some(port) => Some(port),
            None => if entries[0].0 == name {
                Some(entries[0].1)
            } else {
                None
            },
        }
    }
}

/// What is found under `name` after the entries `moved` were moved into a
/// map that held the entries `kept`: the moved port where there is one under
/// the name, and the kept one where there is none.
pub open spec fn merged_lookup(moved: Entries, kept: Entries, name: Seq<char>) -> Option<
    PortVariant,
> {
    match lookup(moved, name) {
        Some(port) => Some(port),
        None => lookup(kept, name),
    }
}

/// A map from names to [`PortVariant`]s: an extendable collection in which
/// each name occurs once.
#[derive(Debug)]
pub struct PortMap(Vec<(String, PortVariant)>);

impl PortMap {
    /// Whether no name occurs twice. Every map that this module hands out is
    /// such a one, and the operations on a collection keep it so.
    pub open spec fn wf(&self) -> bool {
        names_are_unique(self.entries())
    }

    /// A map of the entries of `array`. Where a name occurs more than once in
    /// the array, its last port is the one of the map.
    pub fn from<const N: usize>(array: [(String, PortVariant); N]) -> (map: Self)
        ensures
            map.wf(),
            forall|name: Seq<char>|
                lookup(map.entries(), name) == last_lookup(entries_of(array@), name),
    {
        let mut rest = vec_from_array(array);
        let mut items: Vec<(String, PortVariant)> = Vec::new();
        let ghost all = entries_of(array@);
        proof {
            assert(all.subrange(all.len() as int, all.len() as int) =~= Entries::empty());
            assert(entries_of(items@) =~= Entries::empty());
            assert(entries_of(rest@) =~= all.subrange(0, rest@.len() as int));
        }
        while rest.len() > 0
            invariant
                rest@.len() <= all.len(),
                entries_of(rest@) == all.subrange(0, rest@.len() as int),
                names_are_unique(entries_of(items@)),
                forall|name: Seq<char>|
                    lookup(entries_of(items@), name) == last_lookup(
                        all.subrange(rest@.len() as int, all.len() as int),
                        name,
                    ),
            decreases rest@.len(),
        {
            let ghost before = entries_of(items@);
            let ghost done = all.subrange(rest@.len() as int, all.len() as int);
            let ghost k = rest@.len() - 1;
            let ghost rest_before = rest@;
            let entry = rest.pop().unwrap();
            let ghost e = (entry.0@, entry.1);
            let ghost next = all.subrange(k, all.len() as int);
            proof {
                assert(entries_of(rest_before)[k] == e);
                assert(all.subrange(0, k + 1)[k] == all[k]);
                assert(entries_of(rest@) =~= all.subrange(0, k));
                assert(next.drop_first() =~= done);
                assert(next[0] == e);
                lemma_position_of(before, e.0);
            }
            if first_position(items.as_slice(), entry.0.as_str()).is_none() {
                items.push(entry);
                proof {
                    let after = entries_of(items@);
                    assert(after =~= before.push(e));
                    assert(after.drop_last() =~= before);
                    assert(after.last() == e);
                    assert forall|name: Seq<char>| lookup(after, name) == last_lookup(
                        next,
                        name,
                    ) by {
                        lemma_position_of(before, name);
                        assert(lookup(before, name) == last_lookup(done, name));
                    }
                    assert(names_are_unique(after));
                }
            } else {
                proof {
                    assert forall|name: Seq<char>| lookup(before, name) == last_lookup(
                        next,
                        name,
                    ) by {
                        lemma_position_of(before, name);
                        assert(lookup(before, name) == last_lookup(done, name));
                        assert(lookup(before, e.0) == last_lookup(done, e.0));
                    }
                }
            }
        }
        proof {
            assert(all.subrange(0, all.len() as int) =~= all);
        }
        let map = PortMap(items);
        proof {
            assert forall|name: Seq<char>| lookup(map.entries(), name) == last_lookup(
                entries_of(array@),
                name,
            ) by {
                assert(lookup(entries_of(items@), name) == last_lookup(
                    all.subrange(0, all.len() as int),
                    name,
                ));
            }
        }
        map
    }

    /// Moves all ports of `other` into this map. The other map is empty
    /// afterwards. Where a name of `other` is in this map already, its port
    /// takes the place of the one that was there.
    pub fn append(&mut self, other: &mut PortMap)
        ensures
            final(other).entries() == Entries::empty(),
            forall|name: Seq<char>|
                lookup(final(self).entries(), name) == merged_lookup(
                    old(other).entries(),
                    old(self).entries(),
                    name,
                ),
            old(self).wf() ==> final(self).wf(),
    {
        let ghost all = entries_of(other.0@);
        let ghost kept = entries_of(self.0@);
        proof {
            assert(all.subrange(all.len() as int, all.len() as int) =~= Entries::empty());
            assert(entries_of(other.0@) =~= all.subrange(0, other.0@.len() as int));
        }
        while other.0.len() > 0
            invariant
                other.0@.len() <= all.len(),
                entries_of(other.0@) == all.subrange(0, other.0@.len() as int),
                names_are_unique(kept) ==> names_are_unique(entries_of(self.0@)),
                forall|name: Seq<char>|
                    lookup(entries_of(self.0@), name) == merged_lookup(
                        all.subrange(other.0@.len() as int, all.len() as int),
                        kept,
                        name,
                    ),
            decreases other.0@.len(),
        {
            let ghost before = entries_of(self.0@);
            let ghost done = all.subrange(other.0@.len() as int, all.len() as int);
            let ghost k = other.0@.len() - 1;
            let ghost rest_before = other.0@;
            let entry = other.0.pop().unwrap();
            let ghost e = (entry.0@, entry.1);
            let ghost next = all.subrange(k, all.len() as int);
            proof {
                assert(entries_of(rest_before)[k] == e);
                assert(all.subrange(0, k + 1)[k] == all[k]);
                assert(entries_of(other.0@) =~= all.subrange(0, k));
                assert(next.drop_first() =~= done);
                assert(next[0] == e);
                lemma_position_of(before, e.0);
            }
            match first_position(self.0.as_slice(), entry.0.as_str()) {
                Some(i) => {
                    proof {
                        lemma_entries_update(self.0@, i as int);
                    }
                    let place = &mut self.0[i].1;
                    *place = entry.1;
                    proof {
                        let after = entries_of(self.0@);
                        assert(after == before.update(i as int, (e.0, e.1)));
                        assert forall|name: Seq<char>| lookup(after, name) == merged_lookup(
                            next,
                            kept,
                            name,
                        ) by {
                            lemma_lookup_after_change(before, e.0, e.1, name);
                            lemma_lookup_from_the_front(next, name);
                        }
                        if names_are_unique(before) {
                            lemma_unique_after_change(before, i as int, e.1);
                        }
                    }
                },
                None => {
                    self.0.push(entry);
                    proof {
                        let after = entries_of(self.0@);
                        assert(after =~= before.push(e));
                        assert forall|name: Seq<char>| lookup(after, name) == merged_lookup(
                            next,
                            kept,
                            name,
                        ) by {
                            lemma_lookup_after_push(before, e.0, e.1, name);
                            lemma_lookup_from_the_front(next, name);
                        }
                        if names_are_unique(before) {
                            lemma_unique_after_insert(before, e.0, e.1);
                        }
                    }
                },
            }
        }
        proof {
            assert(all.subrange(0, all.len() as int) =~= all);
            assert(entries_of(other.0@) =~= Entries::empty());
        }
    }

    /// The number of ports.
    pub fn len(&self) -> (n: usize)
        ensures
            n == self.entries().len(),
    {
        self.0.len()
    }

    /// Whether the map holds no port.
    pub fn is_empty(&self) -> (b: bool)
        ensures
            b == (self.entries().len() == 0),
    {
        self.0.len() == 0
    }
}

impl Default for PortMap {
    fn default() -> (map: Self)
        ensures
            map.entries() == Entries::empty(),
            map.wf(),
    {
        let map = PortMap(Vec::new());
        assert(map.entries() =~= Entries::empty());
        map
    }
}

impl PortCollection for PortMap {
    closed spec fn entries(&self) -> Entries {
        entries_of(self.0@)
    }

    fn find(&self, name: &str) -> (port: Option<&PortVariant>) {
        match first_position(self.0.as_slice(), name) {
            Some(i) => Some(&self.0[i].1),
            None => None,
        }
    }

    fn find_mut(&mut self, name: &str) -> (port: Option<&mut PortVariant>)
        ensures
            old(self).wf() ==> final(self).wf(),
    {
        match first_position(self.0.as_slice(), name) {
            Some(i) => {
                proof {
                    let entries = entries_of(self.0@);
                    lemma_position_of(entries, name@);
                    lemma_entries_update(self.0@, i as int);
                    if names_are_unique(entries) {
                        assert forall|port: PortVariant| #[trigger]
                            names_are_unique(entries.update(i as int, (name@, port))) by {
                            lemma_unique_after_change(entries, i as int, port);
                        }
                    }
                }
                Some(&mut self.0[i].1)
            },
            None => None,
        }
    }
}

impl PortCollectionMut for PortMap {
    fn insert(&mut self, name: &str, port: PortVariant) -> (r: Result<(), Error>)
        ensures
            old(self).wf() ==> final(self).wf(),
    {
        proof {
            lemma_position_of(self.entries(), name@);
        }
        if first_position(self.0.as_slice(), name).is_some() {
            Err(Error::AlreadyInCollection)
        } else {
            self.0.push((name.to_owned(), port));
            proof {
                assert(self.entries() =~= old(self).entries().push((name@, port)));
                if old(self).wf() {
                    lemma_unique_after_insert(old(self).entries(), name@, port);
                }
            }
            Ok(())
        }
    }

    fn remove<T: AnyPortValue>(&mut self, name: &str) -> (r: Result<Option<T>, Error>)
        ensures
            old(self).wf() ==> final(self).wf(),
            old(self).wf() && r is Ok ==> !has_name(final(self).entries(), name@),
    {
        proof {
            lemma_position_of(self.entries(), name@);
        }
        match first_position(self.0.as_slice(), name) {
            None => Err(Error::NotFound),
            Some(i) => {
                let taken = self.0[i].1.cell_ref().take::<T>();
                proof {
                    if old(self).wf() {
                        lemma_unique_after_remove(old(self).entries(), i as int);
                    }
                }
                finish_remove(&mut self.0, i, taken)
            },
        }
    }
}

impl PortCollectionAccessorsCommon for PortMap {

}

impl PortCollectionAccessors for PortMap {

}

impl PortCollectionAccessorsMut for PortMap {

}

} // verus!

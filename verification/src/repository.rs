//! A register of persons held in memory: persons keyed by their
//! identifiers, each identifier given once, counting up from 1.

use std::collections::BTreeMap;
use vstd::prelude::*;
use vstd::std_specs::iter::IteratorSpec;
use crate::domain::{NewPerson, Person, PersonPatch, RepositoryError};

verus! {

/// A register's contents are valid under the last identifier it gave out:
/// every person is kept under its own identifier, which lies between 1 and
/// that last one.
pub open spec fn register_valid(m: Map<i32, Person>, last_id: i32) -> bool {
    &&& 0 <= last_id
    &&& forall|id: i32| #[trigger] m.contains_key(id) ==> 0 < id <= last_id && m[id].id == id
}

/// The person with identifier `id`, if the register holds one.
pub open spec fn lookup(m: Map<i32, Person>, id: i32) -> Option<Person> {
    if m.contains_key(id) {
        Some(m[id])
    } else {
        None
    }
}

/// The person that a new person becomes once stored under `id`.
pub open spec fn stored_person(id: i32, person: NewPerson) -> Person {
    Person { id, name: person.name, age: person.age, address: person.address, work: person.work }
}

/// The contents after storing `person` under the identifier that follows
/// the last one given out.
pub open spec fn after_create(m: Map<i32, Person>, last_id: i32, person: NewPerson) -> Map<
    i32,
    Person,
> {
    m.insert((last_id + 1) as i32, stored_person((last_id + 1) as i32, person))
}

/// The contents after patching the person with identifier `id`; unchanged
/// when there is none.
pub open spec fn after_update(m: Map<i32, Person>, id: i32, patch: PersonPatch) -> Map<
    i32,
    Person,
> {
    if m.contains_key(id) {
        m.insert(id, patch.patched(m[id]))
    } else {
        m
    }
}

/// The contents after deleting the person with identifier `id`.
pub open spec fn after_delete(m: Map<i32, Person>, id: i32) -> Map<i32, Person> {
    m.remove(id)
}

/// `s` lists every person of the register once, in the order of their
/// identifiers.
pub open spec fn lists_in_id_order(m: Map<i32, Person>, s: Seq<Person>) -> bool {
    &&& forall|i: int, j: int| 0 <= i < j < s.len() ==> s[i].id < s[j].id
    &&& forall|i: int| 0 <= i < s.len() ==> m.contains_key(#[trigger] s[i].id) && m[s[i].id] == s[i]
    &&& forall|id: i32| #[trigger] m.contains_key(id) ==> exists|i: int| 0 <= i < s.len() && s[i].id == id
}

/// A stored person keeps every field of the new person, under the
/// identifier it is stored with.
pub proof fn law_stored_person_keeps_fields(id: i32, person: NewPerson)
    ensures
        stored_person(id, person).id == id,
        stored_person(id, person).name == person.name,
        stored_person(id, person).age == person.age,
        stored_person(id, person).address == person.address,
        stored_person(id, person).work == person.work,
{
}

/// A read gives the person stored under the identifier, and nothing when
/// there is none.
pub proof fn law_lookup(m: Map<i32, Person>, id: i32)
    ensures
        m.contains_key(id) ==> lookup(m, id) == Some(m[id]),
        !m.contains_key(id) ==> lookup(m, id) is None,
{
}

/// Storing a person gives it a fresh identifier, one above the last, and a
/// read under that identifier gives it back; reads under every other
/// identifier give what they gave before; the register stays valid.
pub proof fn law_find_after_create(m: Map<i32, Person>, last_id: i32, person: NewPerson, id: i32)
    requires
        register_valid(m, last_id),
        last_id < i32::MAX,
    ensures
        !m.contains_key((last_id + 1) as i32),
        register_valid(after_create(m, last_id, person), (last_id + 1) as i32),
        lookup(after_create(m, last_id, person), (last_id + 1) as i32) == Some(
            stored_person((last_id + 1) as i32, person),
        ),
        lookup(after_create(m, last_id, person), (last_id + 1) as i32) matches Some(stored) && stored.id
            == last_id + 1 && stored.name == person.name && stored.age == person.age
            && stored.address == person.address && stored.work == person.work,
        id != last_id + 1 ==> lookup(after_create(m, last_id, person), id) == lookup(m, id),
{
}

/// Patching the person with identifier `id` changes that person as the
/// patch says and no other; a read under `id` gives the patched person (or
/// nothing, when there was no such person); the register stays valid.
pub proof fn law_find_after_update(
    m: Map<i32, Person>,
    last_id: i32,
    id: i32,
    patch: PersonPatch,
    other: i32,
)
    requires
        register_valid(m, last_id),
    ensures
        register_valid(after_update(m, id, patch), last_id),
        lookup(after_update(m, id, patch), id) == match lookup(m, id) {
            Some(person) => Some(patch.patched(person)),
            None => None,
        },
        other != id ==> lookup(after_update(m, id, patch), other) == lookup(m, other),
{
}

/// Deleting the person with identifier `id` removes that person and no
/// other: a read under `id` gives nothing afterwards, reads under every
/// other identifier give what they gave before, and the register stays
/// valid.
pub proof fn law_find_after_delete(m: Map<i32, Person>, last_id: i32, id: i32, other: i32)
    requires
        register_valid(m, last_id),
    ensures
        register_valid(after_delete(m, id), last_id),
        lookup(after_delete(m, id), id) is None,
        other != id ==> lookup(after_delete(m, id), other) == lookup(m, other),
{
}

/// The register of persons, held in memory.
#[derive(Debug)]
pub struct InMemoryPersonRepository {
    persons: BTreeMap<i32, Person>,
    last_id: i32,
}

impl View for InMemoryPersonRepository {
    type V = Map<i32, Person>;

    /// The stored persons, by identifier.
    closed spec fn view(&self) -> Map<i32, Person> {
        self.persons@
    }
}

impl InMemoryPersonRepository {
    /// The last identifier that the register gave out (0 before the first).
    pub closed spec fn last_id(&self) -> i32 {
        self.last_id
    }

    /// The register is valid: see `register_valid`.
    pub open spec fn well_formed(&self) -> bool {
        register_valid(self@, self.last_id())
    }

    /// An empty register that has given out no identifier.
    pub fn new() -> (r: Self)
        ensures
            r.well_formed(),
            r@ == Map::<i32, Person>::empty(),
            r.last_id() == 0,
    {
        InMemoryPersonRepository { persons: BTreeMap::new(), last_id: 0 }
    }

    /// The last identifier that the register gave out.
    pub fn last_assigned_id(&self) -> (r: i32)
        ensures
            r == self.last_id(),
    {
        self.last_id
    }

    /// Every stored person, in the order of their identifiers.
    pub fn list(&self) -> (r: Result<Vec<Person>, RepositoryError>)
        requires
            self.well_formed(),
        ensures
            r matches Ok(persons) && lists_in_id_order(self@, persons@),
    {
        let mut out: Vec<Person> = Vec::new();
        let entries = self.persons.iter();
        let ghost v = entries.remaining();
        for entry in it: entries
            invariant
                it.seq() == v,
                out@.len() == it.index(),
                forall|i: int| 0 <= i < it.index() ==> out@[i] == *it.seq()[i].1,
        {
            out.push(entry.1.clone());
        }
        proof {
            let keys = v.map_values(|kv: (&i32, &Person)| *kv.0);
            assert(out@.len() == v.len());
            assert forall|i: int| 0 <= i < out@.len() implies out@[i] == self@[*v[i].0] && out@[
                i
            ].id == *v[i].0 by {
                assert(self@.contains_key(*v[i].0));
            }
            assert(vstd::std_specs::btree::key_obeys_cmp_spec::<i32>());
            assert(vstd::std_specs::btree::increasing_seq(keys));
            assert forall|i: int, j: int| 0 <= i < j < out@.len() implies out@[i].id
                < out@[j].id by {
                assert(keys[i] == *v[i].0);
                assert(keys[j] == *v[j].0);
                assert(vstd::std_specs::cmp::OrdSpec::cmp_spec(&keys[i], &keys[j]) is Less);

            }
            assert forall|id: i32| #[trigger] self@.contains_key(id) implies exists|i: int|
                0 <= i < out@.len() && out@[i].id == id by {
                assert(v.contains((&id, &self@[id])));
                let i = choose|i: int| 0 <= i < v.len() && v[i] == (&id, &self@[id]);
                assert(out@[i].id == id);
            }
        }
        Ok(out)
    }

    /// The person with identifier `id`, if one is stored.
    pub fn find(&self, id: i32) -> (r: Result<Option<Person>, RepositoryError>)
        ensures
            r == Ok::<Option<Person>, RepositoryError>(lookup(self@, id)),
            self@.contains_key(id) ==> r == Ok::<Option<Person>, RepositoryError>(Some(self@[id])),
            !self@.contains_key(id) ==> r == Ok::<Option<Person>, RepositoryError>(None),
    {
        match self.persons.get(&id) {
            Some(person) => Ok(Some(person.clone())),
            None => Ok(None),
        }
    }

    /// Stores `person` under the identifier that follows the last one given
    /// out, and answers the stored person.
    pub fn create(&mut self, person: NewPerson) -> (r: Result<Person, RepositoryError>)
        requires
            old(self).well_formed(),
            old(self).last_id() < i32::MAX,
        ensures
            final(self).well_formed(),
            final(self).last_id() == old(self).last_id() + 1,
            final(self)@ == after_create(old(self)@, old(self).last_id(), person),
            r == Ok::<Person, RepositoryError>(stored_person(final(self).last_id(), person)),
            r matches Ok(stored) && stored.id == final(self).last_id() && stored.name == person.name
                && stored.age == person.age && stored.address == person.address && stored.work
                == person.work && final(self)@ == old(self)@.insert(stored.id, stored),
    {
        proof {
            law_find_after_create(self@, self.last_id, person, 0);
        }
        self.last_id = self.last_id + 1;
        let stored = Person {
            id: self.last_id,
            name: person.name,
            age: person.age,
            address: person.address,
            work: person.work,
        };
        self.persons.insert(stored.id, stored.clone());
        Ok(stored)
    }

    /// Patches the person with identifier `id` and answers it as patched;
    /// answers nothing, and changes nothing, when there is no such person.
    pub fn update(&mut self, id: i32, patch: PersonPatch) -> (r: Result<
        Option<Person>,
        RepositoryError,
    >)
        requires
            old(self).well_formed(),
        ensures
            final(self).well_formed(),
            final(self).last_id() == old(self).last_id(),
            final(self)@ == after_update(old(self)@, id, patch),
            r == Ok::<Option<Person>, RepositoryError>(
                match lookup(old(self)@, id) {
                    Some(person) => Some(patch.patched(person)),
                    None => None,
                },
            ),
            old(self)@.contains_key(id) ==> (r matches Ok(Some(patched)) && patched == patch.patched(
                old(self)@[id],
            ) && final(self)@ == old(self)@.insert(id, patched)),
            !old(self)@.contains_key(id) ==> r == Ok::<Option<Person>, RepositoryError>(None)
                && final(self)@ == old(self)@,
    {
        proof {
            law_find_after_update(self@, self.last_id, id, patch, id);
        }
        let mut person = match self.persons.get(&id) {
            Some(person) => person.clone(),
            None => {
                return Ok(None);
            },
        };
        patch.apply_to(&mut person);
        let answer = person.clone();
        self.persons.insert(id, person);
        Ok(Some(answer))
    }

    /// Deletes the person with identifier `id`; answers whether there was
    /// one.
    pub fn delete(&mut self, id: i32) -> (r: Result<bool, RepositoryError>)
        requires
            old(self).well_formed(),
        ensures
            final(self).well_formed(),
            final(self).last_id() == old(self).last_id(),
            final(self)@ == after_delete(old(self)@, id),
            r == Ok::<bool, RepositoryError>(old(self)@.contains_key(id)),
            final(self)@ == old(self)@.remove(id),
    {
        proof {
            law_find_after_delete(self@, self.last_id, id, id);
        }
        let removed = self.persons.remove(&id);
        Ok(removed.is_some())
    }
}

} // verus!

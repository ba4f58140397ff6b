//! A stored person, a person to be stored, and a checked patch.

use vstd::prelude::*;
use super::field_update::{lemma_text_clones_are_exact, FieldUpdate};

verus! {

/// A person as the register holds it.
#[derive(Debug, PartialEq, Eq)]
pub struct Person {
    pub id: i32,
    pub name: String,
    pub age: Option<i32>,
    pub address: Option<String>,
    pub work: Option<String>,
}

/// A person that has passed validation and is yet to be stored.
#[derive(Debug, PartialEq, Eq)]
pub struct NewPerson {
    pub name: String,
    pub age: Option<i32>,
    pub address: Option<String>,
    pub work: Option<String>,
}

/// A patch that has passed validation: the name is either kept or set.
#[derive(Debug, Default, PartialEq, Eq)]
pub struct PersonPatch {
    pub name: Option<String>,
    pub age: FieldUpdate<i32>,
    pub address: FieldUpdate<String>,
    pub work: FieldUpdate<String>,
}

/// A copy of an optional text.
pub fn copy_text(text: &Option<String>) -> (r: Option<String>)
    ensures
        r == *text,
{
    match text {
        Some(t) => Some(t.clone()),
        None => None,
    }
}

/// A copy of an update of a text.
pub fn copy_text_update(update: &FieldUpdate<String>) -> (r: FieldUpdate<String>)
    ensures
        r == *update,
{
    proof {
        lemma_text_clones_are_exact();
    }
    update.clone()
}

/// A copy of an update of an age.
pub fn copy_age_update(update: &FieldUpdate<i32>) -> (r: FieldUpdate<i32>)
    ensures
        r == *update,
{
    match update {
        FieldUpdate::Keep => FieldUpdate::Keep,
        FieldUpdate::Clear => FieldUpdate::Clear,
        FieldUpdate::Replace(age) => FieldUpdate::Replace(*age),
    }
}

impl Clone for NewPerson {
    fn clone(&self) -> (r: Self)
        ensures
            r == *self,
    {
        NewPerson {
            name: self.name.clone(),
            age: self.age,
            address: copy_text(&self.address),
            work: copy_text(&self.work),
        }
    }
}

impl Clone for PersonPatch {
    fn clone(&self) -> (r: Self)
        ensures
            r == *self,
    {
        PersonPatch {
            name: copy_text(&self.name),
            age: copy_age_update(&self.age),
            address: copy_text_update(&self.address),
            work: copy_text_update(&self.work),
        }
    }
}

impl Clone for Person {
    fn clone(&self) -> (r: Self)
        ensures
            r == *self,
    {
        Person {
            id: self.id,
            name: self.name.clone(),
            age: self.age,
            address: copy_text(&self.address),
            work: copy_text(&self.work),
        }
    }
}

impl PersonPatch {
    /// The person once this patch has been made to it: the name is replaced
    /// when the patch carries one, every other field changes as its update
    /// says, and the identifier never changes.
    pub open spec fn patched(self, person: Person) -> Person {
        Person {
            id: person.id,
            name: match self.name {
                Some(name) => name,
                None => person.name,
            },
            age: self.age.applied_to(person.age),
            address: self.address.applied_to(person.address),
            work: self.work.applied_to(person.work),
        }
    }

    /// Makes this patch to `person`.
    pub fn apply_to(self, person: &mut Person)
        ensures
            *final(person) == self.patched(*old(person)),
            final(person).id == old(person).id,
            final(person).name == match self.name {
                Some(name) => name,
                None => old(person).name,
            },
            final(person).age == match self.age {
                FieldUpdate::Keep => old(person).age,
                FieldUpdate::Clear => None,
                FieldUpdate::Replace(age) => Some(age),
            },
            final(person).address == match self.address {
                FieldUpdate::Keep => old(person).address,
                FieldUpdate::Clear => None,
                FieldUpdate::Replace(address) => Some(address),
            },
            final(person).work == match self.work {
                FieldUpdate::Keep => old(person).work,
                FieldUpdate::Clear => None,
                FieldUpdate::Replace(work) => Some(work),
            },
    {
        if let Some(name) = self.name {
            person.name = name;
        }
        self.age.apply(&mut person.age);
        self.address.apply(&mut person.address);
        self.work.apply(&mut person.work);
    }
}

/// Making the same patch twice leaves a person as making it once does.
pub proof fn law_patch_is_idempotent(patch: PersonPatch, person: Person)
    ensures
        patch.patched(patch.patched(person)) == patch.patched(person),
{
}

/// What a patch does to a person, field by field: the identifier stays;
/// the name is replaced when the patch carries one and kept otherwise;
/// each other field is kept, cleared or given the value, as its update
/// says.
pub proof fn law_patch_effect(patch: PersonPatch, person: Person)
    ensures
        patch.patched(person).id == person.id,
        patch.name matches Some(name) ==> patch.patched(person).name == name,
        patch.name is None ==> patch.patched(person).name == person.name,
        patch.age is Keep ==> patch.patched(person).age == person.age,
        patch.age is Clear ==> patch.patched(person).age is None,
        patch.age matches FieldUpdate::Replace(age) ==> patch.patched(person).age == Some(age),
        patch.address is Keep ==> patch.patched(person).address == person.address,
        patch.address is Clear ==> patch.patched(person).address is None,
        patch.address matches FieldUpdate::Replace(address) ==> patch.patched(person).address
            == Some(address),
        patch.work is Keep ==> patch.patched(person).work == person.work,
        patch.work is Clear ==> patch.patched(person).work is None,
        patch.work matches FieldUpdate::Replace(work) ==> patch.patched(person).work == Some(
            work,
        ),
{
}

/// A patch that carries nothing leaves a person as it is.
pub proof fn law_empty_patch_changes_nothing(person: Person)
    ensures
        (PersonPatch {
            name: None,
            age: FieldUpdate::Keep,
            address: FieldUpdate::Keep,
            work: FieldUpdate::Keep,
        }).patched(person) == person,
{
}

} // verus!

//! What clients send: a new person, and a patch of a stored one.

use vstd::prelude::*;
use super::field_update::FieldUpdate;
use super::person::{copy_age_update, copy_text, copy_text_update};

verus! {

/// A request to store a new person, as it arrives: every field may be
/// missing.
#[derive(Debug, Default, PartialEq, Eq)]
pub struct NewPersonInput {
    pub name: Option<String>,
    pub age: Option<i32>,
    pub address: Option<String>,
    pub work: Option<String>,
}

/// A request to change a stored person: for each field, keep it, clear it
/// or set it.
#[derive(Debug, Default, PartialEq, Eq)]
pub struct PersonPatchInput {
    pub name: FieldUpdate<String>,
    pub age: FieldUpdate<i32>,
    pub address: FieldUpdate<String>,
    pub work: FieldUpdate<String>,
}

impl Clone for NewPersonInput {
    fn clone(&self) -> (r: Self)
        ensures
            r == *self,
    {
        NewPersonInput {
            name: copy_text(&self.name),
            age: self.age,
            address: copy_text(&self.address),
            work: copy_text(&self.work),
        }
    }
}

impl Clone for PersonPatchInput {
    fn clone(&self) -> (r: Self)
        ensures
            r == *self,
    {
        PersonPatchInput {
            name: copy_text_update(&self.name),
            age: copy_age_update(&self.age),
            address: copy_text_update(&self.address),
            work: copy_text_update(&self.work),
        }
    }
}

} // verus!

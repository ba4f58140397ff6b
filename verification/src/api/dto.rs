//! The shapes in which persons travel over HTTP, and how they turn into the
//! inputs of the domain and back.

use vstd::prelude::*;
use vstd::std_specs::convert::FromSpec;
use crate::domain::{FieldUpdate, NewPersonInput, Person, PersonPatchInput};
use crate::domain::person::copy_text;

verus! {

/// A person as the API answers it.
#[derive(Debug, PartialEq, Eq)]
pub struct PersonResponse {
    pub id: i32,
    pub name: String,
    pub age: Option<i32>,
    pub address: Option<String>,
    pub work: Option<String>,
}

impl From<Person> for PersonResponse {
    fn from(person: Person) -> (r: Self)
        ensures
            r.id == person.id,
            r.name == person.name,
            r.age == person.age,
            r.address == person.address,
            r.work == person.work,
    {
        PersonResponse {
            id: person.id,
            name: person.name,
            age: person.age,
            address: person.address,
            work: person.work,
        }
    }
}

impl vstd::std_specs::convert::FromSpecImpl<Person> for PersonResponse {
    open spec fn obeys_from_spec() -> bool {
        true
    }

    open spec fn from_spec(v: Person) -> Self {
        PersonResponse { id: v.id, name: v.name, age: v.age, address: v.address, work: v.work }
    }
}

/// The body of a request to store a person: every field may be missing.
#[derive(Debug, Default, PartialEq, Eq)]
pub struct PersonRequest {
    pub name: Option<String>,
    pub age: Option<i32>,
    pub address: Option<String>,
    pub work: Option<String>,
}

impl From<PersonRequest> for NewPersonInput {
    fn from(request: PersonRequest) -> (r: Self)
        ensures
            r.name == request.name,
            r.age == request.age,
            r.address == request.address,
            r.work == request.work,
    {
        NewPersonInput {
            name: request.name,
            age: request.age,
            address: request.address,
            work: request.work,
        }
    }
}

impl vstd::std_specs::convert::FromSpecImpl<PersonRequest> for NewPersonInput {
    open spec fn obeys_from_spec() -> bool {
        true
    }

    open spec fn from_spec(v: PersonRequest) -> Self {
        NewPersonInput { name: v.name, age: v.age, address: v.address, work: v.work }
    }
}

/// The body of a patch request. For each field: `None` when the field is
/// absent from the body, `Some(None)` when it is given as `null`,
/// `Some(Some(v))` when it is given a value.
#[derive(Debug, Default, PartialEq, Eq)]
pub struct PersonPatchRequest {
    pub name: Option<Option<String>>,
    pub age: Option<Option<i32>>,
    pub address: Option<Option<String>>,
    pub work: Option<Option<String>>,
}

/// The update that a field of a patch body stands for: absent keeps the
/// field, `null` clears it, a value sets it.
pub open spec fn spec_field_update<T>(value: Option<Option<T>>) -> FieldUpdate<T> {
    match value {
        None => FieldUpdate::Keep,
        Some(None) => FieldUpdate::Clear,
        Some(Some(value)) => FieldUpdate::Replace(value),
    }
}

/// The update that a field of a patch body stands for.
pub fn field_update<T>(value: Option<Option<T>>) -> (r: FieldUpdate<T>)
    ensures
        r == spec_field_update(value),
        value is None ==> r is Keep,
        value == Some(None::<T>) ==> r is Clear,
        value matches Some(Some(v)) ==> r == FieldUpdate::Replace(v),
{
    match value {
        None => FieldUpdate::Keep,
        Some(None) => FieldUpdate::Clear,
        Some(Some(value)) => FieldUpdate::Replace(value),
    }
}

/// Each field of a patch body turns into its update: absent keeps the
/// field, `null` clears it, a value replaces it.
pub proof fn law_patch_body_updates(request: PersonPatchRequest)
    ensures
        request.name is None ==> spec_field_update(request.name) is Keep,
        request.name == Some(None::<String>) ==> spec_field_update(request.name) is Clear,
        request.name matches Some(Some(v)) ==> spec_field_update(request.name) == FieldUpdate::Replace(v),
        request.name is None ==> PersonPatchInput::from_spec(request).name is Keep,
        request.name == Some(None::<String>) ==> PersonPatchInput::from_spec(request).name is Clear,
        request.name matches Some(Some(v)) ==> PersonPatchInput::from_spec(request).name == FieldUpdate::Replace(v),
        request.age is None ==> spec_field_update(request.age) is Keep,
        request.age == Some(None::<i32>) ==> spec_field_update(request.age) is Clear,
        request.age matches Some(Some(v)) ==> spec_field_update(request.age) == FieldUpdate::Replace(v),
        request.age is None ==> PersonPatchInput::from_spec(request).age is Keep,
        request.age == Some(None::<i32>) ==> PersonPatchInput::from_spec(request).age is Clear,
        request.age matches Some(Some(v)) ==> PersonPatchInput::from_spec(request).age == FieldUpdate::Replace(v),
        request.address is None ==> spec_field_update(request.address) is Keep,
        request.address == Some(None::<String>) ==> spec_field_update(request.address) is Clear,
        request.address matches Some(Some(v)) ==> spec_field_update(request.address) == FieldUpdate::Replace(v),
        request.address is None ==> PersonPatchInput::from_spec(request).address is Keep,
        request.address == Some(None::<String>) ==> PersonPatchInput::from_spec(request).address is Clear,
        request.address matches Some(Some(v)) ==> PersonPatchInput::from_spec(request).address == FieldUpdate::Replace(v),
        request.work is None ==> spec_field_update(request.work) is Keep,
        request.work == Some(None::<String>) ==> spec_field_update(request.work) is Clear,
        request.work matches Some(Some(v)) ==> spec_field_update(request.work) == FieldUpdate::Replace(v),
        request.work is None ==> PersonPatchInput::from_spec(request).work is Keep,
        request.work == Some(None::<String>) ==> PersonPatchInput::from_spec(request).work is Clear,
        request.work matches Some(Some(v)) ==> PersonPatchInput::from_spec(request).work == FieldUpdate::Replace(v),
{
}

/// A request and an answer carry every field unchanged.
pub proof fn law_conversions_keep_fields(request: PersonRequest, person: Person)
    ensures
        NewPersonInput::from_spec(request).name == request.name,
        NewPersonInput::from_spec(request).age == request.age,
        NewPersonInput::from_spec(request).address == request.address,
        NewPersonInput::from_spec(request).work == request.work,
        PersonResponse::from_spec(person).id == person.id,
        PersonResponse::from_spec(person).name == person.name,
        PersonResponse::from_spec(person).age == person.age,
        PersonResponse::from_spec(person).address == person.address,
        PersonResponse::from_spec(person).work == person.work,
{
}

impl From<PersonPatchRequest> for PersonPatchInput {
    fn from(request: PersonPatchRequest) -> (r: Self)
        ensures
            request.name is None ==> r.name is Keep,
            request.name == Some(None::<String>) ==> r.name is Clear,
            request.name matches Some(Some(v)) ==> r.name == FieldUpdate::Replace(v),
            request.age is None ==> r.age is Keep,
            request.age == Some(None::<i32>) ==> r.age is Clear,
            request.age matches Some(Some(v)) ==> r.age == FieldUpdate::Replace(v),
            request.address is None ==> r.address is Keep,
            request.address == Some(None::<String>) ==> r.address is Clear,
            request.address matches Some(Some(v)) ==> r.address == FieldUpdate::Replace(v),
            request.work is None ==> r.work is Keep,
            request.work == Some(None::<String>) ==> r.work is Clear,
            request.work matches Some(Some(v)) ==> r.work == FieldUpdate::Replace(v),
    {
        PersonPatchInput {
            name: field_update(request.name),
            age: field_update(request.age),
            address: field_update(request.address),
            work: field_update(request.work),
        }
    }
}

impl vstd::std_specs::convert::FromSpecImpl<PersonPatchRequest> for PersonPatchInput {
    open spec fn obeys_from_spec() -> bool {
        true
    }

    open spec fn from_spec(v: PersonPatchRequest) -> Self {
        PersonPatchInput {
            name: spec_field_update(v.name),
            age: spec_field_update(v.age),
            address: spec_field_update(v.address),
            work: spec_field_update(v.work),
        }
    }
}

/// A copy of a text field of a patch body.
pub fn copy_present_text(value: &Option<Option<String>>) -> (r: Option<Option<String>>)
    ensures
        r == *value,
{
    match value {
        Some(text) => Some(copy_text(text)),
        None => None,
    }
}

impl Clone for PersonResponse {
    fn clone(&self) -> (r: Self)
        ensures
            r == *self,
    {
        PersonResponse {
            id: self.id,
            name: self.name.clone(),
            age: self.age,
            address: copy_text(&self.address),
            work: copy_text(&self.work),
        }
    }
}

impl Clone for PersonRequest {
    fn clone(&self) -> (r: Self)
        ensures
            r == *self,
    {
        PersonRequest {
            name: copy_text(&self.name),
            age: self.age,
            address: copy_text(&self.address),
            work: copy_text(&self.work),
        }
    }
}

impl Clone for PersonPatchRequest {
    fn clone(&self) -> (r: Self)
        ensures
            r == *self,
    {
        PersonPatchRequest {
            name: copy_present_text(&self.name),
            age: self.age,
            address: copy_present_text(&self.address),
            work: copy_present_text(&self.work),
        }
    }
}

} // verus!

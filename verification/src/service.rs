//! The service layer: what it answers for each reply of the storage, and
//! what it asks the storage to do for each request.

use std::sync::Arc;
use vstd::prelude::*;
use crate::domain::validation::{
    accepted_patch,
    accepted_person,
    person_meets_rules,
    law_accepted_patch_keeps_rules,
    law_accepted_request_meets_rules,
    new_input_accepted,
    new_input_messages,
    patch_input_accepted,
    patch_input_messages,
};
use crate::repository::{
    after_create,
    after_delete,
    after_update,
    law_find_after_create,
    law_find_after_delete,
    lookup,
    register_valid,
    stored_person,
};
use crate::domain::{
    validate_new,
    validate_patch,
    NewPerson,
    NewPersonInput,
    Person,
    PersonPatch,
    PersonPatchInput,
    RepositoryError,
    ValidationErrors,
};

verus! {

/// Why the service could not do what it was asked.
#[derive(Debug)]
pub enum ServiceError {
    /// No person has this identifier.
    NotFound(i32),
    /// The request broke the rules; the messages say how.
    Validation(ValidationErrors),
    /// The storage failed; the text describes the failure.
    Storage(String),
}

impl From<ValidationErrors> for ServiceError {
    fn from(errors: ValidationErrors) -> (r: Self)
        ensures
            r == ServiceError::Validation(errors),
    {
        ServiceError::Validation(errors)
    }
}

impl vstd::std_specs::convert::FromSpecImpl<ValidationErrors> for ServiceError {
    open spec fn obeys_from_spec() -> bool {
        true
    }

    open spec fn from_spec(v: ValidationErrors) -> Self {
        ServiceError::Validation(v)
    }
}

impl From<RepositoryError> for ServiceError {
    fn from(error: RepositoryError) -> (r: Self)
        ensures
            r == ServiceError::Storage(error.0),
    {
        ServiceError::Storage(error.0)
    }
}

impl vstd::std_specs::convert::FromSpecImpl<RepositoryError> for ServiceError {
    open spec fn obeys_from_spec() -> bool {
        true
    }

    open spec fn from_spec(v: RepositoryError) -> Self {
        ServiceError::Storage(v.0)
    }
}

/// The service over a storage of persons.
pub struct PersonService<R> {
    repository: Arc<R>,
}

impl<R> Clone for PersonService<R> {
    /// Another handle on the same service: it works on the same storage.
    fn clone(&self) -> (r: Self)
        ensures
            r.storage() == self.storage(),
    {
        PersonService { repository: Arc::clone(&self.repository) }
    }
}

impl<R> PersonService<R> {
    /// The storage that the service works on.
    pub closed spec fn storage(&self) -> Arc<R> {
        self.repository
    }

    /// A service over `repository`.
    pub fn new(repository: Arc<R>) -> (r: Self)
        ensures
            r.storage() == repository,
    {
        PersonService { repository }
    }

    /// The storage that the service works on.
    pub fn repository(&self) -> (r: &Arc<R>)
        ensures
            *r == self.storage(),
    {
        &self.repository
    }
}

/// The service's answer to a storage reply that it passes on as it is,
/// with a failure of the storage turned into `Storage`.
pub open spec fn passed_on<T>(reply: Result<T, RepositoryError>) -> Result<T, ServiceError> {
    match reply {
        Ok(value) => Ok(value),
        Err(error) => Err(ServiceError::Storage(error.0)),
    }
}

/// The service's answer to a storage reply that may hold no person: a
/// missing person under `id` is `NotFound(id)`.
pub open spec fn found_or_missing(
    id: i32,
    reply: Result<Option<Person>, RepositoryError>,
) -> Result<Person, ServiceError> {
    match reply {
        Ok(Some(person)) => Ok(person),
        Ok(None) => Err(ServiceError::NotFound(id)),
        Err(error) => Err(ServiceError::Storage(error.0)),
    }
}

/// How the service answers a storage reply: a value is passed on as it is,
/// a missing person under `id` is `NotFound(id)`, and a failure of the
/// storage is `Storage` with the storage's own description.
pub proof fn law_service_answers<T>(
    id: i32,
    person: Person,
    value: T,
    error: RepositoryError,
)
    ensures
        passed_on(Ok::<T, RepositoryError>(value)) == Ok::<T, ServiceError>(value),
        passed_on(Err::<T, RepositoryError>(error)) == Err::<T, ServiceError>(
            ServiceError::Storage(error.0),
        ),
        found_or_missing(id, Ok(Some(person))) == Ok::<Person, ServiceError>(person),
        found_or_missing(id, Ok(None)) == Err::<Person, ServiceError>(ServiceError::NotFound(id)),
        found_or_missing(id, Err(error)) == Err::<Person, ServiceError>(
            ServiceError::Storage(error.0),
        ),
{
}

/// Answers the listing of the storage.
pub fn listed(reply: Result<Vec<Person>, RepositoryError>) -> (r: Result<Vec<Person>, ServiceError>)
    ensures
        r == passed_on(reply),
{
    match reply {
        Ok(persons) => Ok(persons),
        Err(error) => Err(ServiceError::from(error)),
    }
}

/// Answers a read of the person with identifier `id`.
pub fn found(id: i32, reply: Result<Option<Person>, RepositoryError>) -> (r: Result<
    Person,
    ServiceError,
>)
    ensures
        r == found_or_missing(id, reply),
{
    match reply {
        Ok(Some(person)) => Ok(person),
        Ok(None) => Err(ServiceError::NotFound(id)),
        Err(error) => Err(ServiceError::from(error)),
    }
}

/// What the service asks the storage to store for a request: the checked
/// person, or the validation failure, before the storage is reached.
pub fn prepare_create(input: NewPersonInput) -> (r: Result<NewPerson, ServiceError>)
    ensures
        match r {
            Ok(person) => new_input_accepted(input) && person == accepted_person(input),
            Err(ServiceError::Validation(errors)) => !new_input_accepted(input) && errors@
                == new_input_messages(input),
            Err(_) => false,
        },
        r matches Ok(person) ==> person.name == input.name->0 && person.age == input.age
            && person.address == input.address && person.work == input.work,
{
    match validate_new(input) {
        Ok(person) => Ok(person),
        Err(errors) => Err(ServiceError::from(errors)),
    }
}

/// Answers the storing of a new person.
pub fn created(reply: Result<Person, RepositoryError>) -> (r: Result<Person, ServiceError>)
    ensures
        r == passed_on(reply),
{
    match reply {
        Ok(person) => Ok(person),
        Err(error) => Err(ServiceError::from(error)),
    }
}

/// What the service asks the storage to change for a patch request: the
/// checked patch, or the validation failure, before the storage is reached.
pub fn prepare_update(input: PersonPatchInput) -> (r: Result<PersonPatch, ServiceError>)
    ensures
        match r {
            Ok(patch) => patch_input_accepted(input) && patch == accepted_patch(input),
            Err(ServiceError::Validation(errors)) => !patch_input_accepted(input) && errors@
                == patch_input_messages(input),
            Err(_) => false,
        },
        r matches Ok(patch) ==> patch.age == input.age && patch.address == input.address
            && patch.work == input.work && patch.name == input.name.set_value(),
{
    match validate_patch(input) {
        Ok(patch) => Ok(patch),
        Err(errors) => Err(ServiceError::from(errors)),
    }
}

/// Answers the patching of the person with identifier `id`.
pub fn updated(id: i32, reply: Result<Option<Person>, RepositoryError>) -> (r: Result<
    Person,
    ServiceError,
>)
    ensures
        r == found_or_missing(id, reply),
{
    found(id, reply)
}

/// Answers a deletion: whether a person was there or not, the deletion
/// succeeds; only a failure of the storage is an error.
pub fn deleted(reply: Result<bool, RepositoryError>) -> (r: Result<(), ServiceError>)
    ensures
        match reply {
            Ok(_) => r is Ok,
            Err(error) => r == Err::<(), ServiceError>(ServiceError::Storage(error.0)),
        },
{
    match reply {
        Ok(_) => Ok(()),
        Err(error) => Err(ServiceError::from(error)),
    }
}

/// Every person of the register meets the rules.
pub open spec fn all_meet_rules(m: Map<i32, Person>) -> bool {
    forall|id: i32| #[trigger] m.contains_key(id) ==> person_meets_rules(m[id])
}

/// A register that the service fills holds only persons that meet the
/// rules: storing an accepted request, patching with an accepted patch and
/// deleting all keep every stored person within them.
pub proof fn law_service_keeps_persons_within_rules(
    m: Map<i32, Person>,
    last_id: i32,
    request: NewPersonInput,
    patch: PersonPatchInput,
    id: i32,
)
    requires
        all_meet_rules(m),
    ensures
        new_input_accepted(request) ==> all_meet_rules(
            after_create(m, last_id, accepted_person(request)),
        ),
        patch_input_accepted(patch) ==> all_meet_rules(after_update(m, id, accepted_patch(patch))),
        all_meet_rules(after_delete(m, id)),
{
    if new_input_accepted(request) {
        law_accepted_request_meets_rules(request, (last_id + 1) as i32);
    }
    if patch_input_accepted(patch) && m.contains_key(id) {
        law_accepted_patch_keeps_rules(patch, m[id]);
    }
}

/// What the service answers after storing a person is what it answers to
/// a read of it: the stored person; after a deletion, a read of the same
/// identifier is answered `NotFound`.
pub proof fn law_service_reads_back_writes(
    m: Map<i32, Person>,
    last_id: i32,
    person: NewPerson,
    id: i32,
)
    requires
        register_valid(m, last_id),
        last_id < i32::MAX,
    ensures
        found_or_missing(
            (last_id + 1) as i32,
            Ok(lookup(after_create(m, last_id, person), (last_id + 1) as i32)),
        ) == passed_on(
            Ok::<Person, RepositoryError>(stored_person((last_id + 1) as i32, person)),
        ),
        found_or_missing(id, Ok(lookup(after_delete(m, id), id))) == Err::<Person, ServiceError>(
            ServiceError::NotFound(id),
        ),
{
    law_find_after_create(m, last_id, person, id);
    law_find_after_delete(m, last_id, id, id);
}

} // verus!

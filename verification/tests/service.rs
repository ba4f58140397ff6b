use std::sync::Arc;

use person_service::domain::{
    FieldUpdate, NewPersonInput, Person, PersonPatchInput, RepositoryError,
};
use person_service::repository::InMemoryPersonRepository;
use person_service::service::{
    created, deleted, found, listed, prepare_create, prepare_update, updated, PersonService,
    ServiceError,
};

fn ada() -> Person {
    Person {
        id: 4,
        name: "Ada".to_owned(),
        age: None,
        address: None,
        work: None,
    }
}

#[test]
fn a_service_works_on_the_storage_it_was_given() {
    let storage = Arc::new(InMemoryPersonRepository::new());
    let service = PersonService::new(Arc::clone(&storage));

    assert!(Arc::ptr_eq(service.repository(), &storage));
    let copy = service.clone();
    assert!(Arc::ptr_eq(copy.repository(), &storage));
}

#[test]
fn storage_replies_are_passed_on() {
    assert_eq!(listed(Ok(vec![ada()])).unwrap(), vec![ada()]);
    assert_eq!(created(Ok(ada())).unwrap(), ada());
    assert_eq!(found(4, Ok(Some(ada()))).unwrap(), ada());
    assert_eq!(updated(4, Ok(Some(ada()))).unwrap(), ada());
    assert!(deleted(Ok(true)).is_ok());
    assert!(deleted(Ok(false)).is_ok());

    match found(4, Ok(None)) {
        Err(ServiceError::NotFound(4)) => {}
        other => panic!("expected NotFound(4), got {other:?}"),
    }
    match updated(8, Ok(None)) {
        Err(ServiceError::NotFound(8)) => {}
        other => panic!("expected NotFound(8), got {other:?}"),
    }
    match listed(Err(RepositoryError("down".to_owned()))) {
        Err(ServiceError::Storage(cause)) => assert_eq!(cause, "down"),
        other => panic!("expected a storage failure, got {other:?}"),
    }
    match deleted(Err(RepositoryError("gone".to_owned()))) {
        Err(ServiceError::Storage(cause)) => assert_eq!(cause, "gone"),
        other => panic!("expected a storage failure, got {other:?}"),
    }
    match created(Err(RepositoryError("full".to_owned()))) {
        Err(ServiceError::Storage(cause)) => assert_eq!(cause, "full"),
        other => panic!("expected a storage failure, got {other:?}"),
    }
}

#[test]
fn invalid_requests_never_reach_the_storage() {
    match prepare_create(NewPersonInput::default()) {
        Err(ServiceError::Validation(errors)) => {
            assert_eq!(errors.get("name").map(String::as_str), Some("must be present"))
        }
        other => panic!("expected a validation failure, got {other:?}"),
    }
    let patch = PersonPatchInput {
        age: FieldUpdate::Replace(-2),
        ..Default::default()
    };
    match prepare_update(patch) {
        Err(ServiceError::Validation(errors)) => {
            assert_eq!(errors.get("age").map(String::as_str), Some("must not be negative"))
        }
        other => panic!("expected a validation failure, got {other:?}"),
    }
}

#[test]
fn accepted_writes_keep_every_person_within_the_rules() {
    let mut store = InMemoryPersonRepository::new();
    let request = NewPersonInput {
        name: Some("Ada".to_owned()),
        age: Some(36),
        ..Default::default()
    };
    let stored = created(store.create(prepare_create(request).unwrap())).unwrap();
    let patch = PersonPatchInput {
        age: FieldUpdate::Clear,
        work: FieldUpdate::Replace("Engine".to_owned()),
        ..Default::default()
    };
    updated(stored.id, store.update(stored.id, prepare_update(patch).unwrap())).unwrap();

    for person in store.list().unwrap() {
        assert!(!person.name.trim().is_empty());
        assert!(person.age.map_or(true, |age| age >= 0));
    }
}

#[test]
fn a_created_person_is_read_back_and_a_deleted_one_is_not_found() {
    let mut store = InMemoryPersonRepository::new();
    let request = NewPersonInput {
        name: Some("Ada".to_owned()),
        ..Default::default()
    };
    let stored = created(store.create(prepare_create(request).unwrap())).unwrap();

    assert_eq!(found(stored.id, store.find(stored.id)).unwrap(), stored);

    deleted(store.delete(stored.id)).unwrap();
    match found(stored.id, store.find(stored.id)) {
        Err(ServiceError::NotFound(id)) => assert_eq!(id, stored.id),
        other => panic!("expected NotFound, got {other:?}"),
    }
}

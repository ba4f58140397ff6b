use person_service::api::dto::{field_update, PersonPatchRequest, PersonRequest, PersonResponse};
use person_service::api::error::{ApiError, AppError, ErrorBody, ErrorReply};
use person_service::api::http::{
    person_location, BAD_REQUEST, CREATED, INTERNAL_SERVER_ERROR, NOT_FOUND, NO_CONTENT, OK,
};
use person_service::domain::{
    FieldUpdate, NewPersonInput, PersonPatchInput, RepositoryError, ValidationErrors,
};
use person_service::repository::InMemoryPersonRepository;
use person_service::service::{
    created, deleted, found, listed, prepare_create, prepare_update, updated, ServiceError,
};

fn ada_request() -> PersonRequest {
    PersonRequest {
        name: Some("Ada Lovelace".to_owned()),
        age: Some(36),
        address: Some("Marylebone".to_owned()),
        work: Some("Analytical Engine".to_owned()),
    }
}

/// What `POST /api/v1/persons` does with the in-memory register: the
/// status and the `Location` header, or the error answer.
fn post(store: &mut InMemoryPersonRepository, request: PersonRequest) -> Result<(u16, String), ErrorReply> {
    let person = prepare_create(NewPersonInput::from(request))
        .map_err(|e| ApiError::from(e).into_reply())?;
    let stored = created(store.create(person)).map_err(|e| ApiError::from(e).into_reply())?;
    Ok((CREATED, person_location(stored.id)))
}

fn get(store: &InMemoryPersonRepository, id: i32) -> Result<(u16, PersonResponse), ErrorReply> {
    let person = found(id, store.find(id)).map_err(|e| ApiError::from(e).into_reply())?;
    Ok((OK, PersonResponse::from(person)))
}

fn store_ada(store: &mut InMemoryPersonRepository) -> i32 {
    let (status, location) = post(store, ada_request()).expect("stored");
    assert_eq!(status, CREATED);
    location
        .rsplit('/')
        .next()
        .expect("id at the end of Location")
        .parse()
        .expect("numeric id")
}

#[test]
fn creating_a_person_answers_201_with_its_location() {
    let mut store = InMemoryPersonRepository::new();

    let (status, location) = post(&mut store, ada_request()).expect("stored");

    assert_eq!(status, CREATED);
    assert_eq!(location, "/api/v1/persons/1");
}

#[test]
fn reading_a_person_answers_the_stored_one() {
    let mut store = InMemoryPersonRepository::new();
    let id = store_ada(&mut store);

    let (status, body) = get(&store, id).expect("found");

    assert_eq!(status, OK);
    assert_eq!(
        body,
        PersonResponse {
            id,
            name: "Ada Lovelace".to_owned(),
            age: Some(36),
            address: Some("Marylebone".to_owned()),
            work: Some("Analytical Engine".to_owned()),
        }
    );
}

#[test]
fn listing_persons_answers_every_stored_one() {
    let mut store = InMemoryPersonRepository::new();
    let first = store_ada(&mut store);
    let second = store_ada(&mut store);

    let persons = listed(store.list()).expect("listed");

    let listed_ids: Vec<i32> = persons
        .into_iter()
        .map(PersonResponse::from)
        .map(|person| person.id)
        .collect();
    assert_eq!(listed_ids, vec![first, second]);
}

#[test]
fn patching_a_person_leaves_the_untouched_fields_alone() {
    let mut store = InMemoryPersonRepository::new();
    let id = store_ada(&mut store);
    let request = PersonPatchRequest {
        name: Some(Some("Grace Hopper".to_owned())),
        address: Some(Some("Arlington".to_owned())),
        ..Default::default()
    };

    let patch = prepare_update(PersonPatchInput::from(request)).expect("a valid patch");
    let person = updated(id, store.update(id, patch)).expect("patched");

    assert_eq!(
        PersonResponse::from(person),
        PersonResponse {
            id,
            name: "Grace Hopper".to_owned(),
            age: Some(36),
            address: Some("Arlington".to_owned()),
            work: Some("Analytical Engine".to_owned()),
        }
    );
}

#[test]
fn deleting_a_person_answers_204_and_it_is_gone() {
    let mut store = InMemoryPersonRepository::new();
    let id = store_ada(&mut store);

    let status = deleted(store.delete(id)).map(|()| NO_CONTENT).expect("deleted");
    assert_eq!(status, NO_CONTENT);

    let reply = get(&store, id).expect_err("gone");
    assert_eq!(reply.status, NOT_FOUND);
    match reply.body {
        ErrorBody::Message(body) => assert_eq!(body.message, "Person with id 1 not found"),
        ErrorBody::Validation(_) => panic!("a missing person has a plain message"),
    }
}

#[test]
fn deleting_a_missing_person_still_answers_204() {
    let mut store = InMemoryPersonRepository::new();

    assert_eq!(store.delete(7).expect("in memory"), false);
    assert!(deleted(store.delete(7)).is_ok());
}

#[test]
fn patching_a_missing_person_answers_404() {
    let mut store = InMemoryPersonRepository::new();
    store_ada(&mut store);
    let patch = prepare_update(PersonPatchInput::default()).expect("valid");

    let error = updated(9, store.update(9, patch)).expect_err("missing");

    let reply = ApiError::from(error).into_reply();
    assert_eq!(reply.status, NOT_FOUND);
    match reply.body {
        ErrorBody::Message(body) => assert_eq!(body.message, "Person with id 9 not found"),
        ErrorBody::Validation(_) => panic!("a missing person has a plain message"),
    }
    assert_eq!(store.list().expect("in memory").len(), 1);
}

#[test]
fn an_invalid_request_answers_400_with_every_message() {
    let mut store = InMemoryPersonRepository::new();
    let request = PersonRequest {
        name: Some(" ".to_owned()),
        age: Some(-3),
        ..Default::default()
    };

    let reply = post(&mut store, request).expect_err("invalid");

    assert_eq!(reply.status, BAD_REQUEST);
    match reply.body {
        ErrorBody::Validation(body) => {
            assert_eq!(body.message, "Validation failed");
            assert_eq!(body.errors.len(), 2);
            assert_eq!(
                body.errors.get("name").map(String::as_str),
                Some("must not be blank")
            );
            assert_eq!(
                body.errors.get("age").map(String::as_str),
                Some("must not be negative")
            );
        }
        ErrorBody::Message(_) => panic!("a validation failure lists the fields"),
    }
    assert_eq!(store.last_assigned_id(), 0);
}

#[test]
fn a_failed_storage_answers_500_without_its_cause() {
    let error = found(3, Err(RepositoryError("connection reset".to_owned()))).expect_err("failed");
    match &error {
        ServiceError::Storage(cause) => assert_eq!(cause, "connection reset"),
        _ => panic!("a storage failure"),
    }

    let reply = ApiError::from(error).into_reply();

    assert_eq!(reply.status, INTERNAL_SERVER_ERROR);
    match reply.body {
        ErrorBody::Message(body) => assert_eq!(body.message, "Internal server error"),
        ErrorBody::Validation(_) => panic!("a plain message"),
    }
}

#[test]
fn a_malformed_body_answers_400_with_its_reason_and_no_fields() {
    let reply = ApiError::MalformedBody("expected value at line 1".to_owned()).into_reply();

    assert_eq!(reply.status, BAD_REQUEST);
    match reply.body {
        ErrorBody::Validation(body) => {
            assert_eq!(body.message, "expected value at line 1");
            assert!(body.errors.is_empty());
        }
        ErrorBody::Message(_) => panic!("a malformed body keeps the validation shape"),
    }
}

#[test]
fn every_app_error_has_its_answer() {
    let reply = AppError::NotFound(-42).into_reply();
    assert_eq!(reply.status, NOT_FOUND);
    match reply.body {
        ErrorBody::Message(body) => assert_eq!(body.message, "Person with id -42 not found"),
        ErrorBody::Validation(_) => panic!("plain"),
    }

    let mut errors = ValidationErrors::new();
    errors.insert("name".to_owned(), "must be present".to_owned());
    let reply = AppError::Validation(errors).into_reply();
    assert_eq!(reply.status, BAD_REQUEST);
    match reply.body {
        ErrorBody::Validation(body) => {
            assert_eq!(body.message, "Validation failed");
            assert_eq!(body.errors.get("name").map(String::as_str), Some("must be present"));
        }
        ErrorBody::Message(_) => panic!("detailed"),
    }

    let reply = AppError::MalformedBody("bad".to_owned()).into_reply();
    assert_eq!(reply.status, BAD_REQUEST);

    let reply = AppError::Internal("disk full".to_owned()).into_reply();
    assert_eq!(reply.status, INTERNAL_SERVER_ERROR);
    match reply.body {
        ErrorBody::Message(body) => assert_eq!(body.message, "Internal server error"),
        ErrorBody::Validation(_) => panic!("plain"),
    }
}

#[test]
fn locations_render_every_identifier() {
    assert_eq!(person_location(1), "/api/v1/persons/1");
    assert_eq!(person_location(0), "/api/v1/persons/0");
    assert_eq!(person_location(1234567), "/api/v1/persons/1234567");
    assert_eq!(person_location(i32::MAX), format!("/api/v1/persons/{}", i32::MAX));
    assert_eq!(person_location(i32::MIN), format!("/api/v1/persons/{}", i32::MIN));
    assert_eq!(person_location(-7), "/api/v1/persons/-7");
}

#[test]
fn patch_bodies_turn_into_updates() {
    assert_eq!(field_update::<i32>(None), FieldUpdate::Keep);
    assert_eq!(field_update::<i32>(Some(None)), FieldUpdate::Clear);
    assert_eq!(field_update(Some(Some(3))), FieldUpdate::Replace(3));

    let input = PersonPatchInput::from(PersonPatchRequest {
        name: None,
        age: Some(None),
        address: Some(Some("Here".to_owned())),
        work: None,
    });
    assert_eq!(input.name, FieldUpdate::Keep);
    assert_eq!(input.age, FieldUpdate::Clear);
    assert_eq!(input.address, FieldUpdate::Replace("Here".to_owned()));
    assert_eq!(input.work, FieldUpdate::Keep);
}

#[test]
fn a_request_turns_into_the_same_input() {
    let input = NewPersonInput::from(ada_request());
    assert_eq!(
        input,
        NewPersonInput {
            name: Some("Ada Lovelace".to_owned()),
            age: Some(36),
            address: Some("Marylebone".to_owned()),
            work: Some("Analytical Engine".to_owned()),
        }
    );
}

#[test]
fn a_patch_with_a_null_name_answers_400() {
    let request = PersonPatchRequest {
        name: Some(None),
        ..Default::default()
    };

    let error = prepare_update(PersonPatchInput::from(request)).expect_err("refused");
    let reply = ApiError::from(error).into_reply();

    assert_eq!(reply.status, BAD_REQUEST);
    match reply.body {
        ErrorBody::Validation(body) => assert_eq!(
            body.errors.get("name").map(String::as_str),
            Some("must not be null")
        ),
        ErrorBody::Message(_) => panic!("detailed"),
    }
}

#[test]
fn copies_of_requests_and_answers_are_equal_to_them() {
    let request = ada_request();
    assert_eq!(request.clone(), request);
    let patch = PersonPatchRequest {
        name: Some(None),
        address: Some(Some("Here".to_owned())),
        ..Default::default()
    };
    assert_eq!(patch.clone(), patch);
    let input = PersonPatchInput::from(patch.clone());
    assert_eq!(input.clone(), input);
    let response = PersonResponse {
        id: 2,
        name: "Ada".to_owned(),
        age: None,
        address: Some("Marylebone".to_owned()),
        work: None,
    };
    assert_eq!(response.clone(), response);
    let config = person_service::config::Config::from_values(Some("db".to_owned()), None, None)
        .expect("valid");
    let copy = config.clone();
    assert_eq!(
        (copy.port, copy.database_url, copy.max_connections),
        (config.port, config.database_url, config.max_connections)
    );
}

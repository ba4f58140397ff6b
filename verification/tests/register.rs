use person_service::domain::{FieldUpdate, NewPerson, PersonPatch};
use person_service::repository::InMemoryPersonRepository;

fn new_person(name: &str) -> NewPerson {
    NewPerson {
        name: name.to_owned(),
        age: None,
        address: None,
        work: None,
    }
}

#[test]
fn identifiers_count_up_from_one() {
    let mut store = InMemoryPersonRepository::new();
    assert_eq!(store.last_assigned_id(), 0);

    let a = store.create(new_person("A")).unwrap();
    let b = store.create(new_person("B")).unwrap();
    let c = store.create(new_person("C")).unwrap();

    assert_eq!((a.id, b.id, c.id), (1, 2, 3));
    assert_eq!(store.last_assigned_id(), 3);
}

#[test]
fn a_read_gives_back_what_was_stored() {
    let mut store = InMemoryPersonRepository::new();
    let stored = store
        .create(NewPerson {
            name: "Ada".to_owned(),
            age: Some(36),
            address: Some("Marylebone".to_owned()),
            work: None,
        })
        .unwrap();

    assert_eq!(store.find(stored.id).unwrap(), Some(stored));
    assert_eq!(store.find(2).unwrap(), None);
}

#[test]
fn identifiers_are_not_given_again_after_a_deletion() {
    let mut store = InMemoryPersonRepository::new();
    store.create(new_person("A")).unwrap();
    let b = store.create(new_person("B")).unwrap();
    assert!(store.delete(b.id).unwrap());

    let c = store.create(new_person("C")).unwrap();

    assert_eq!(c.id, 3);
    let names: Vec<String> = store.list().unwrap().into_iter().map(|p| p.name).collect();
    assert_eq!(names, vec!["A".to_owned(), "C".to_owned()]);
}

#[test]
fn deleting_twice_reports_the_second_as_missing() {
    let mut store = InMemoryPersonRepository::new();
    let a = store.create(new_person("A")).unwrap();

    assert!(store.delete(a.id).unwrap());
    assert!(!store.delete(a.id).unwrap());
    assert_eq!(store.find(a.id).unwrap(), None);
    assert!(store.list().unwrap().is_empty());
}

#[test]
fn an_update_changes_one_person_only() {
    let mut store = InMemoryPersonRepository::new();
    let a = store.create(new_person("A")).unwrap();
    let b = store.create(new_person("B")).unwrap();
    let patch = PersonPatch {
        name: Some("Z".to_owned()),
        age: FieldUpdate::Replace(9),
        address: FieldUpdate::Keep,
        work: FieldUpdate::Clear,
    };

    let patched = store.update(b.id, patch).unwrap().expect("present");

    assert_eq!(patched.id, b.id);
    assert_eq!(patched.name, "Z");
    assert_eq!(patched.age, Some(9));
    assert_eq!(store.find(b.id).unwrap(), Some(patched));
    assert_eq!(store.find(a.id).unwrap(), Some(a));
}

#[test]
fn an_update_of_a_missing_person_changes_nothing() {
    let mut store = InMemoryPersonRepository::new();
    let a = store.create(new_person("A")).unwrap();

    let answer = store.update(5, PersonPatch::default()).unwrap();

    assert_eq!(answer, None);
    assert_eq!(store.list().unwrap(), vec![a]);
    assert_eq!(store.last_assigned_id(), 1);
}

#[test]
fn the_list_follows_the_identifiers() {
    let mut store = InMemoryPersonRepository::new();
    for name in ["A", "B", "C", "D"] {
        store.create(new_person(name)).unwrap();
    }
    store.delete(2).unwrap();

    let ids: Vec<i32> = store.list().unwrap().into_iter().map(|p| p.id).collect();
    assert_eq!(ids, vec![1, 3, 4]);
}

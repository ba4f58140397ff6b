//! The rules that an input must meet before it reaches the storage.

use vstd::prelude::*;
use crate::text::{is_blank, is_blank_text};
use super::error::ValidationErrors;
use super::field_update::FieldUpdate;
use super::input::{NewPersonInput, PersonPatchInput};
use super::person::{NewPerson, Person, PersonPatch};

verus! {

/// What is wrong with the name of a new person, if anything: it must be
/// present and not blank.
pub open spec fn new_name_message(name: Option<String>) -> Option<Seq<char>> {
    match name {
        None => Some("must be present"@),
        Some(name) => if is_blank_text(name@) {
            Some("must not be blank"@)
        } else {
            None
        },
    }
}

/// What is wrong with the name that a patch carries, if anything: it may be
/// kept, but not cleared nor set to a blank text.
pub open spec fn patched_name_message(name: FieldUpdate<String>) -> Option<Seq<char>> {
    match name {
        FieldUpdate::Keep => None,
        FieldUpdate::Clear => Some("must not be null"@),
        FieldUpdate::Replace(name) => if is_blank_text(name@) {
            Some("must not be blank"@)
        } else {
            None
        },
    }
}

/// What is wrong with an age, if anything: it must not be negative.
pub open spec fn age_message(age: Option<i32>) -> Option<Seq<char>> {
    match age {
        Some(age) => if age < 0 {
            Some("must not be negative"@)
        } else {
            None
        },
        None => None,
    }
}

/// `errors` with `message` recorded for `field`, when there is a message.
pub open spec fn with_message(
    errors: Map<Seq<char>, Seq<char>>,
    field: Seq<char>,
    message: Option<Seq<char>>,
) -> Map<Seq<char>, Seq<char>> {
    match message {
        Some(message) => errors.insert(field, message),
        None => errors,
    }
}

/// Every message of a validation at once: the name's, then the age's.
pub open spec fn validation_messages(
    name_message: Option<Seq<char>>,
    age_message: Option<Seq<char>>,
) -> Map<Seq<char>, Seq<char>> {
    with_message(with_message(Map::empty(), "name"@, name_message), "age"@, age_message)
}

/// The age that a patch sets, if it sets one.
pub open spec fn patched_age(age: FieldUpdate<i32>) -> Option<i32> {
    age.set_value()
}

/// Whether a request for a new person meets the rules.
pub open spec fn new_input_accepted(input: NewPersonInput) -> bool {
    new_name_message(input.name) is None && age_message(input.age) is None
}

/// The messages for a request for a new person, by field.
pub open spec fn new_input_messages(input: NewPersonInput) -> Map<Seq<char>, Seq<char>> {
    validation_messages(new_name_message(input.name), age_message(input.age))
}

/// The person that an accepted request for a new person stands for.
pub open spec fn accepted_person(input: NewPersonInput) -> NewPerson {
    NewPerson { name: input.name->0, age: input.age, address: input.address, work: input.work }
}

/// Whether a patch request meets the rules.
pub open spec fn patch_input_accepted(input: PersonPatchInput) -> bool {
    patched_name_message(input.name) is None && age_message(patched_age(input.age)) is None
}

/// The messages for a patch request, by field.
pub open spec fn patch_input_messages(input: PersonPatchInput) -> Map<Seq<char>, Seq<char>> {
    validation_messages(patched_name_message(input.name), age_message(patched_age(input.age)))
}

/// The patch that an accepted patch request stands for.
pub open spec fn accepted_patch(input: PersonPatchInput) -> PersonPatch {
    PersonPatch {
        name: input.name.set_value(),
        age: input.age,
        address: input.address,
        work: input.work,
    }
}

/// What the messages of a validation hold: a message for `name` exactly
/// when the name has one, a message for `age` exactly when the age has one,
/// and nothing for any other field.
pub proof fn law_validation_messages(name_message: Option<Seq<char>>, age_message: Option<Seq<char>>)
    ensures
        validation_messages(name_message, age_message).contains_key("name"@) == name_message is Some,
        name_message matches Some(m) ==> validation_messages(name_message, age_message)["name"@]
            == m,
        validation_messages(name_message, age_message).contains_key("age"@) == age_message is Some,
        age_message matches Some(m) ==> validation_messages(name_message, age_message)["age"@]
            == m,
        forall|k: Seq<char>|
            #[trigger] validation_messages(name_message, age_message).contains_key(k) ==> k
                == "name"@ || k == "age"@,
{
    reveal_strlit("name");
    reveal_strlit("age");
    assert("name"@.len() != "age"@.len());
}

/// A request for a new person is accepted exactly when its name is present
/// and not blank and its age is not negative; what is wrong with it is said
/// in these words: a missing name "must be present", a blank one "must not
/// be blank", a negative age "must not be negative".
pub proof fn law_new_input_rules(input: NewPersonInput)
    ensures
        new_input_accepted(input) == ((input.name matches Some(name) && !is_blank_text(name@))
            && !(input.age matches Some(age) && age < 0)),
        input.name is None ==> new_name_message(input.name) == Some("must be present"@),
        input.name matches Some(name) && is_blank_text(name@) ==> new_name_message(input.name)
            == Some("must not be blank"@),
        input.name matches Some(name) && !is_blank_text(name@) ==> new_name_message(
            input.name,
        ) is None,
        input.age matches Some(age) && age < 0 ==> age_message(input.age) == Some(
            "must not be negative"@,
        ),
        !(input.age matches Some(age) && age < 0) ==> age_message(input.age) is None,
{
}

/// A patch request is accepted exactly when it neither clears the name nor
/// sets it to a blank text, and sets no negative age; a cleared name "must
/// not be null", a blank one "must not be blank", a negative age "must not
/// be negative".
pub proof fn law_patch_input_rules(input: PersonPatchInput)
    ensures
        patch_input_accepted(input) == (!(input.name is Clear) && !(input.name matches FieldUpdate::Replace(
            name,
        ) && is_blank_text(name@)) && !(input.age matches FieldUpdate::Replace(age) && age < 0)),
        input.name is Clear ==> patched_name_message(input.name) == Some("must not be null"@),
        input.name matches FieldUpdate::Replace(name) && is_blank_text(name@)
            ==> patched_name_message(input.name) == Some("must not be blank"@),
        input.name is Keep ==> patched_name_message(input.name) is None,
        input.name matches FieldUpdate::Replace(name) && !is_blank_text(name@)
            ==> patched_name_message(input.name) is None,
        input.age matches FieldUpdate::Replace(age) && age < 0 ==> age_message(
            patched_age(input.age),
        ) == Some("must not be negative"@),
        !(input.age matches FieldUpdate::Replace(age) && age < 0) ==> age_message(
            patched_age(input.age),
        ) is None,
{
}

/// An accepted request keeps every field it carries.
pub proof fn law_accepted_person_keeps_fields(input: NewPersonInput)
    ensures
        accepted_person(input).name == input.name->0,
        accepted_person(input).age == input.age,
        accepted_person(input).address == input.address,
        accepted_person(input).work == input.work,
{
}

/// An accepted patch request carries its age, address and work updates
/// unchanged, and the name that it sets, if any.
pub proof fn law_accepted_patch_keeps_updates(input: PersonPatchInput)
    ensures
        accepted_patch(input).age == input.age,
        accepted_patch(input).address == input.address,
        accepted_patch(input).work == input.work,
        input.name matches FieldUpdate::Replace(name) ==> accepted_patch(input).name == Some(name),
        !(input.name is Replace) ==> accepted_patch(input).name is None,
{
}

/// Records a message for a negative age.
pub fn validate_age(age: Option<i32>, errors: &mut ValidationErrors)
    ensures
        final(errors)@ == with_message(old(errors)@, "age"@, age_message(age)),
{
    if let Some(age) = age {
        if age < 0 {
            errors.insert("age".to_owned(), "must not be negative".to_owned());
        }
    }
}

/// Checks a request for a new person. It is accepted when its name is
/// present and not blank and its age, if given, is not negative; then the
/// person carries the fields of the request. Otherwise every broken field
/// is reported at once.
pub fn validate_new(input: NewPersonInput) -> (r: Result<NewPerson, ValidationErrors>)
    ensures
        match r {
            Ok(person) => new_input_accepted(input) && person == accepted_person(input),
            Err(errors) => !new_input_accepted(input) && errors@ == new_input_messages(input),
        },
        r is Ok == ((input.name matches Some(name) && !is_blank_text(name@)) && !(input.age matches Some(
            age,
        ) && age < 0)),
        r matches Ok(person) ==> person.name == input.name->0 && person.age == input.age
            && person.address == input.address && person.work == input.work,
        r matches Err(errors) ==> {
            &&& input.name is None ==> errors@.contains_key("name"@) && errors@["name"@]
                == "must be present"@
            &&& (input.name matches Some(name) && is_blank_text(name@)) ==> errors@.contains_key(
                "name"@,
            ) && errors@["name"@] == "must not be blank"@
            &&& (input.name matches Some(name) && !is_blank_text(name@)) ==> !errors@.contains_key(
                "name"@,
            )
            &&& (input.age matches Some(age) && age < 0) ==> errors@.contains_key("age"@)
                && errors@["age"@] == "must not be negative"@
            &&& !(input.age matches Some(age) && age < 0) ==> !errors@.contains_key("age"@)
            &&& forall|k: Seq<char>| #[trigger] errors@.contains_key(k) ==> k == "name"@ || k
                == "age"@
        },
{
    proof {
        law_new_input_rules(input);
        law_accepted_person_keeps_fields(input);
        law_validation_messages(new_name_message(input.name), age_message(input.age));
    }
    let mut errors = ValidationErrors::new();
    let ghost empty = errors@;
    let name: Option<String> = match input.name {
        Some(name) => {
            if !is_blank(name.as_str()) {
                Some(name)
            } else {
                errors.insert("name".to_owned(), "must not be blank".to_owned());
                None
            }
        },
        None => {
            errors.insert("name".to_owned(), "must be present".to_owned());
            None
        },
    };
    assert(errors@ == with_message(empty, "name"@, new_name_message(input.name)));
    validate_age(input.age, &mut errors);
    match name {
        Some(name) => {
            if errors.is_empty() {
                proof {
                    if age_message(input.age) is Some {
                        assert(errors@.contains_key("age"@));
                    }
                }
                Ok(NewPerson { name, age: input.age, address: input.address, work: input.work })
            } else {
                Err(errors)
            }
        },
        None => {
            assert(errors@.contains_key("name"@) || errors@.contains_key("age"@));
            Err(errors)
        },
    }
}

/// Checks a patch. It is accepted when it keeps the name or sets it to a
/// text that is not blank, and sets no negative age; then it carries the
/// updates of the request. A patch that clears the name is refused.
/// Otherwise every broken field is reported at once.
pub fn validate_patch(input: PersonPatchInput) -> (r: Result<PersonPatch, ValidationErrors>)
    ensures
        match r {
            Ok(patch) => patch_input_accepted(input) && patch == accepted_patch(input),
            Err(errors) => !patch_input_accepted(input) && errors@ == patch_input_messages(input),
        },
        r is Ok == (!(input.name is Clear) && !(input.name matches FieldUpdate::Replace(name)
            && is_blank_text(name@)) && !(input.age matches FieldUpdate::Replace(age) && age < 0)),
        r matches Ok(patch) ==> {
            &&& patch.age == input.age
            &&& patch.address == input.address
            &&& patch.work == input.work
            &&& input.name matches FieldUpdate::Replace(name) ==> patch.name == Some(name)
            &&& input.name is Keep ==> patch.name is None
        },
        r matches Err(errors) ==> {
            &&& input.name is Clear ==> errors@.contains_key("name"@) && errors@["name"@]
                == "must not be null"@
            &&& (input.name matches FieldUpdate::Replace(name) && is_blank_text(name@))
                ==> errors@.contains_key("name"@) && errors@["name"@] == "must not be blank"@
            &&& input.name is Keep ==> !errors@.contains_key("name"@)
            &&& (input.name matches FieldUpdate::Replace(name) && !is_blank_text(name@))
                ==> !errors@.contains_key("name"@)
            &&& (input.age matches FieldUpdate::Replace(age) && age < 0) ==> errors@.contains_key(
                "age"@,
            ) && errors@["age"@] == "must not be negative"@
            &&& !(input.age matches FieldUpdate::Replace(age) && age < 0)
                ==> !errors@.contains_key("age"@)
            &&& forall|k: Seq<char>| #[trigger] errors@.contains_key(k) ==> k == "name"@ || k
                == "age"@
        },
{
    proof {
        law_patch_input_rules(input);
        law_accepted_patch_keeps_updates(input);
        law_validation_messages(
            patched_name_message(input.name),
            age_message(patched_age(input.age)),
        );
    }
    let mut errors = ValidationErrors::new();
    let ghost empty = errors@;
    let name: Option<String> = match input.name {
        FieldUpdate::Keep => None,
        FieldUpdate::Replace(name) => {
            if !is_blank(name.as_str()) {
                Some(name)
            } else {
                errors.insert("name".to_owned(), "must not be blank".to_owned());
                None
            }
        },
        FieldUpdate::Clear => {
            errors.insert("name".to_owned(), "must not be null".to_owned());
            None
        },
    };
    assert(errors@ == with_message(empty, "name"@, patched_name_message(input.name)));
    let age: Option<i32> = match input.age.value() {
        Some(age) => Some(*age),
        None => None,
    };
    validate_age(age, &mut errors);
    if errors.is_empty() {
        proof {
            if age_message(patched_age(input.age)) is Some {
                assert(errors@.contains_key("age"@));
            }
            if patched_name_message(input.name) is Some {
                assert(with_message(empty, "name"@, patched_name_message(input.name)).contains_key(
                    "name"@,
                ));
                assert(errors@.contains_key("name"@));
            }
        }
        Ok(PersonPatch { name, age: input.age, address: input.address, work: input.work })
    } else {
        Err(errors)
    }
}

/// A person meets the rules when its name is not blank and its age, if
/// known, is not negative.
pub open spec fn person_meets_rules(person: Person) -> bool {
    !is_blank_text(person.name@) && age_message(person.age) is None
}

/// A person stored from an accepted request meets the rules, whatever
/// identifier it is given.
pub proof fn law_accepted_request_meets_rules(input: NewPersonInput, id: i32)
    requires
        new_input_accepted(input),
    ensures
        person_meets_rules(
            Person {
                id,
                name: accepted_person(input).name,
                age: accepted_person(input).age,
                address: accepted_person(input).address,
                work: accepted_person(input).work,
            },
        ),
{
}

/// An accepted patch keeps a person that meets the rules within them: a
/// patch can neither blank nor clear the name, nor make the age negative.
pub proof fn law_accepted_patch_keeps_rules(input: PersonPatchInput, person: Person)
    requires
        patch_input_accepted(input),
        person_meets_rules(person),
    ensures
        person_meets_rules(accepted_patch(input).patched(person)),
{
}

} // verus!

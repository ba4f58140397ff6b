//! The domain: persons, the inputs that clients send, the way a patch
//! changes a stored person and the rules that inputs must meet.

pub mod error;
pub mod field_update;
pub mod input;
pub mod person;
pub mod validation;

pub use error::{RepositoryError, ValidationErrors};
pub use field_update::FieldUpdate;
pub use input::{NewPersonInput, PersonPatchInput};
pub use person::{NewPerson, Person, PersonPatch};
pub use validation::{validate_new, validate_patch};

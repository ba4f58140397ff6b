//! The status codes that the API answers with, and where a stored person
//! can be read.

use vstd::prelude::*;
use crate::text::{decimal_text, push_decimal};

verus! {

/// `200 OK`: a read or a patch succeeded.
pub const OK: u16 = 200;

/// `201 Created`: a person was stored.
pub const CREATED: u16 = 201;

/// `204 No Content`: a deletion succeeded.
pub const NO_CONTENT: u16 = 204;

/// `400 Bad Request`: the request broke the rules or could not be read.
pub const BAD_REQUEST: u16 = 400;

/// `404 Not Found`: no person has the identifier.
pub const NOT_FOUND: u16 = 404;

/// `500 Internal Server Error`: the storage failed.
pub const INTERNAL_SERVER_ERROR: u16 = 500;

/// Where the person with identifier `id` can be read.
pub open spec fn location_text(id: i32) -> Seq<char> {
    "/api/v1/persons/"@ + decimal_text(id as int)
}

/// Where the person with identifier `id` can be read:
/// `/api/v1/persons/{id}`, answered in the `Location` header of a creation.
pub fn person_location(id: i32) -> (r: String)
    ensures
        r@ == location_text(id),
{
    let mut location = "/api/v1/persons/".to_owned();
    push_decimal(&mut location, id);
    location
}

} // verus!

use vstd::prelude::*;
use crate::models::{BloomUser, UserRepository, holds_id, is_first_with_id};

verus! {

/// Status of a response that carries the requested user.
pub const STATUS_OK: u16 = 200;

/// Status of a response for an identifier that no row carries.
pub const STATUS_NOT_FOUND: u16 = 404;

/// Status of a response for a failed lookup.
pub const STATUS_INTERNAL_ERROR: u16 = 500;

/// What the route `GET /users/{id}` answers: a status and, on success, the
/// user to serialise as the body. `None` is an empty body.
#[derive(Debug, Clone)]
pub struct UserResponse {
    pub status: u16,
    pub body: Option<BloomUser>,
}

/// Handles `GET /users/{id}`, given the identifier from the path and what the
/// store returned for it: the row with that identifier answers 200 with the row
/// as its body, no such row answers 404, and a failed lookup answers 500,
/// whatever the error was. Neither failure carries a body.
pub fn get_bloom_user_by_id<E>(id: i64, fetched: Result<Vec<BloomUser>, E>) -> (r: UserResponse)
    ensures
        fetched is Err ==> r.status == STATUS_INTERNAL_ERROR && r.body is None,
        fetched is Ok && !holds_id(fetched->Ok_0@, id as int) ==> r.status == STATUS_NOT_FOUND
            && r.body is None,
        fetched is Ok && holds_id(fetched->Ok_0@, id as int) ==> r.status == STATUS_OK
            && r.body is Some && r.body->0.id as int == id as int && is_first_with_id(
            fetched->Ok_0@,
            id as int,
            r.body->0,
        ),
{
    match UserRepository::find_by_id(fetched, id) {
        Ok(Some(user)) => UserResponse { status: STATUS_OK, body: Some(user) },
        Ok(None) => UserResponse { status: STATUS_NOT_FOUND, body: None },
        Err(_) => UserResponse { status: STATUS_INTERNAL_ERROR, body: None },
    }
}

} // verus!

use vstd::prelude::*;

use crate::errors::users::UserError;
use crate::models::users::User;
use crate::schemas::users::{RegisterUser, UserResponse, response_of};
use crate::services::auth::hashing::{hash, hash_spec};

verus! {

/// The routes under `/user`, all behind the authentication and role guards.
pub struct UserRouter;

/// The API description of the `/user` routes.
pub struct UserDocs;

/// HTTP 200.
pub const STATUS_OK: u16 = 200;

/// HTTP 204.
pub const STATUS_NO_CONTENT: u16 = 204;

/// The answer to a profile request once the caller's account was looked up:
/// its public view, or `NotFound`.
pub fn profile_outcome(found: Option<User>) -> (outcome: Result<UserResponse, UserError>)
    ensures
        match found {
            Some(user) => outcome == Ok::<UserResponse, UserError>(response_of(user)),
            None => outcome == Err::<UserResponse, UserError>(UserError::NotFound),
        },
        match found {
            Some(user) => outcome matches Ok(r) && r.id == user.id && r.name@ == user.name@
                && r.email@ == user.email@ && r.role == user.role,
            None => true,
        },
{
    match found {
        Some(user) => Ok(UserResponse::from(user)),
        None => Err(UserError::NotFound),
    }
}

/// The error of an administrator creation whose insert failed: a unique-key
/// violation (the email is taken) is a conflict, any other failure a database
/// error.
pub fn creation_failure(unique_violation: bool, message: String) -> (error: UserError)
    ensures
        unique_violation ==> error == UserError::UserAlreadyExists,
        !unique_violation ==> error == UserError::Db(message),
{
    if unique_violation {
        UserError::UserAlreadyExists
    } else {
        UserError::Db(message)
    }
}

/// The fields a profile update writes. It holds no role: the caller changes
/// their own name, email and password, never their id or role, so the stored
/// role stays as it is.
pub struct ProfileUpdate {
    pub id: u128,
    pub name: String,
    pub email: String,
    pub password_hash: String,
}

/// The record written by a profile update: the caller's own id, and the name,
/// email and password (hashed with the server secret) from the request. The
/// caller's role is not part of it, so an update never changes the stored role.
pub fn updated_user(id: u128, value: RegisterUser, secret: &str) -> (update: ProfileUpdate)
    ensures
        update.id == id,
        update.name@ == value.name@,
        update.email@ == value.email@,
        update.password_hash@ == hash_spec(value.password@, secret@),
{
    let password_hash = hash(value.password.as_str(), secret);
    ProfileUpdate { id, name: value.name, email: value.email, password_hash }
}

/// The answer to a profile update once the row was written: `204 No Content`
/// if a row was changed, `NotFound` if no row has the caller's id.
pub fn update_outcome(rows_affected: u64) -> (outcome: Result<u16, UserError>)
    ensures
        rows_affected == 0 ==> outcome == Err::<u16, UserError>(UserError::NotFound),
        rows_affected != 0 ==> outcome == Ok::<u16, UserError>(STATUS_NO_CONTENT),
{
    if rows_affected == 0 {
        Err(UserError::NotFound)
    } else {
        Ok(STATUS_NO_CONTENT)
    }
}

/// The answer to a page request once the page was read: `204 No Content` with
/// no body for an empty page, else `200 OK` with the public view of each
/// account, in the order read.
pub fn page_outcome(users: Vec<User>) -> (outcome: (u16, Vec<UserResponse>))
    ensures
        users@.len() == 0 ==> outcome.0 == STATUS_NO_CONTENT,
        users@.len() != 0 ==> outcome.0 == STATUS_OK,
        outcome.1@ == users@.map_values(|u: User| response_of(u)),
        outcome.1@.len() == users@.len(),
        forall|i: int|
            0 <= i < users@.len() ==> {
                &&& #[trigger] outcome.1@[i].id == users@[i].id
                &&& outcome.1@[i].name@ == users@[i].name@
                &&& outcome.1@[i].email@ == users@[i].email@
                &&& outcome.1@[i].role == users@[i].role
            },
{
    let ghost input = users@;
    let status = if users.len() == 0 {
        STATUS_NO_CONTENT
    } else {
        STATUS_OK
    };
    let mut responses: Vec<UserResponse> = Vec::new();
    for user in iter: users
        invariant
            iter.seq() == input,
            responses@ == input.take(iter.index() as int).map_values(|u: User| response_of(u)),
    {
        proof {
            assert(input.take(iter.index() + 1).map_values(|u: User| response_of(u))
                =~= input.take(iter.index() as int).map_values(|u: User| response_of(u)).push(response_of(input[iter.index() as int])));
        }
        responses.push(UserResponse::from(user));
    }
    assert(input.take(input.len() as int) =~= input);
    (status, responses)
}

} // verus!

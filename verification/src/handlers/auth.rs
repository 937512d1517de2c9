use vstd::prelude::*;

use crate::errors::auth::AuthError;
use crate::errors::users::UserError;
use crate::models::users::User;

verus! {

/// The routes under `/auth`: registration, login and token refresh.
pub struct AuthRouter;

/// The API description of the `/auth` routes.
pub struct AuthDocs;

/// The error of a registration whose insert failed: a unique-key violation
/// (the email is taken) is a conflict, any other failure a database error.
pub fn register_failure(unique_violation: bool, message: String) -> (error: AuthError)
    ensures
        unique_violation ==> error == AuthError::UserError(UserError::UserAlreadyExists),
        !unique_violation ==> error == AuthError::Db(message),
{
    if unique_violation {
        AuthError::UserError(UserError::UserAlreadyExists)
    } else {
        AuthError::Db(message)
    }
}

/// The outcome of a login once the account with that email and password hash
/// was looked up: the account if there is one, `Unauthorized` otherwise.
pub fn login_outcome(found: Option<User>) -> (outcome: Result<User, AuthError>)
    ensures
        match found {
            Some(user) => outcome == Ok::<User, AuthError>(user),
            None => outcome == Err::<User, AuthError>(AuthError::Unauthorized),
        },
{
    match found {
        Some(user) => Ok(user),
        None => Err(AuthError::Unauthorized),
    }
}

} // verus!

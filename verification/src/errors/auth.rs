use vstd::prelude::*;

use crate::errors::users::{UserError, user_error_status, user_error_body};

verus! {

/// Errors of the authentication endpoints.
#[derive(Debug, PartialEq, Eq)]
pub enum AuthError {
    Db(String),
    UserError(UserError),
    Unauthorized,
}

/// The HTTP status with which an authentication error is answered.
pub open spec fn auth_error_status(e: AuthError) -> u16 {
    match e {
        AuthError::Db(_) => 500,
        AuthError::UserError(inner) => user_error_status(inner),
        AuthError::Unauthorized => 401,
    }
}

/// The body with which an authentication error is answered.
pub open spec fn auth_error_body(e: AuthError) -> Seq<char> {
    match e {
        AuthError::Db(message) => message@,
        AuthError::UserError(inner) => user_error_body(inner),
        AuthError::Unauthorized => "Unauthorized"@,
    }
}

impl AuthError {
    /// The HTTP status code of the response for this error.
    pub fn status_code(&self) -> (code: u16)
        ensures
            code == auth_error_status(*self),
    {
        match self {
            AuthError::Db(_) => 500,
            AuthError::UserError(inner) => inner.status_code(),
            AuthError::Unauthorized => 401,
        }
    }

    /// The body text of the response for this error.
    pub fn body(&self) -> (text: String)
        ensures
            text@ == auth_error_body(*self),
    {
        match self {
            AuthError::Db(message) => message.clone(),
            AuthError::UserError(inner) => inner.body(),
            AuthError::Unauthorized => "Unauthorized".to_owned(),
        }
    }
}

} // verus!

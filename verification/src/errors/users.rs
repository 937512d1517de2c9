use vstd::prelude::*;

verus! {

/// Errors of the user endpoints and of the user repository.
///
/// A database failure carries the text of the underlying driver error.
#[derive(Debug, PartialEq, Eq)]
pub enum UserError {
    Db(String),
    NotFound,
    UserAlreadyExists,
    InvalidRole,
}

/// The HTTP status with which an error is answered.
pub open spec fn user_error_status(e: UserError) -> u16 {
    match e {
        UserError::Db(_) => 500,
        UserError::NotFound => 404,
        UserError::UserAlreadyExists => 409,
        UserError::InvalidRole => 400,
    }
}

/// The body with which an error is answered.
pub open spec fn user_error_body(e: UserError) -> Seq<char> {
    match e {
        UserError::Db(message) => message@,
        UserError::NotFound => "User not found"@,
        UserError::UserAlreadyExists => "User with this email already exists"@,
        UserError::InvalidRole => "Invalid role"@,
    }
}

impl UserError {
    /// The HTTP status code of the response for this error.
    pub fn status_code(&self) -> (code: u16)
        ensures
            code == user_error_status(*self),
    {
        match self {
            UserError::Db(_) => 500,
            UserError::NotFound => 404,
            UserError::UserAlreadyExists => 409,
            UserError::InvalidRole => 400,
        }
    }

    /// The body text of the response for this error.
    pub fn body(&self) -> (text: String)
        ensures
            text@ == user_error_body(*self),
    {
        match self {
            UserError::Db(message) => message.clone(),
            UserError::NotFound => "User not found".to_owned(),
            UserError::UserAlreadyExists => "User with this email already exists".to_owned(),
            UserError::InvalidRole => "Invalid role".to_owned(),
        }
    }
}

} // verus!

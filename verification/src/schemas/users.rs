use vstd::prelude::*;

use crate::models::users::{Role, User};

verus! {

/// The body of a registration request (and of a profile update).
pub struct RegisterUser {
    pub name: String,
    pub email: String,
    pub password: String,
}

/// The body of a login request.
pub struct LoginUser {
    pub email: String,
    pub password: String,
}

/// A user as shown to clients: every field but the password hash.
pub struct UserResponse {
    pub id: u128,
    pub name: String,
    pub email: String,
    pub role: Role,
}

/// The public view of a user record.
pub open spec fn response_of(user: User) -> UserResponse {
    UserResponse { id: user.id, name: user.name, email: user.email, role: user.role }
}

/// The public view of an account is the account itself without its password
/// hash: the same id, name, email and role, administrators included.
pub proof fn lemma_public_view_keeps_account_fields(user: User)
    ensures
        response_of(user).id == user.id,
        response_of(user).name@ == user.name@,
        response_of(user).email@ == user.email@,
        response_of(user).role == user.role,
{
}

impl From<User> for UserResponse {
    /// Drops the password hash and keeps every other field.
    fn from(user: User) -> (response: UserResponse)
        ensures
            response.id == user.id,
            response.name@ == user.name@,
            response.email@ == user.email@,
            response.role == user.role,
    {
        UserResponse { id: user.id, name: user.name, email: user.email, role: user.role }
    }
}

impl vstd::std_specs::convert::FromSpecImpl<User> for UserResponse {
    open spec fn obeys_from_spec() -> bool {
        true
    }

    open spec fn from_spec(v: User) -> UserResponse {
        response_of(v)
    }
}

} // verus!

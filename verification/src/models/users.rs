use vstd::prelude::*;

use crate::errors::users::UserError;
use crate::schemas::users::RegisterUser;
use crate::services::auth::hashing::{hash, hash_spec};

verus! {

/// The role of a user account.
#[derive(Clone, Copy, Debug, PartialEq, Eq, Structural)]
pub enum Role {
    User,
    Admin,
}

impl Role {
    /// Every role, in declaration order.
    pub fn all() -> (roles: Vec<Role>)
        ensures
            roles@ == all_roles(),
    {
        vec![Role::User, Role::Admin]
    }

    /// The roles allowed on administrator-only routes.
    pub fn admin_only() -> (roles: Vec<Role>)
        ensures
            roles@ == admin_roles(),
    {
        vec![Role::Admin]
    }
}

/// Every role, in declaration order.
pub open spec fn all_roles() -> Seq<Role> {
    seq![Role::User, Role::Admin]
}

/// The roles admitted on administrator-only routes.
pub open spec fn admin_roles() -> Seq<Role> {
    seq![Role::Admin]
}

/// `Role::all` lists every role, each exactly once.
pub proof fn lemma_all_roles_complete(role: Role)
    ensures
        all_roles().contains(role),
        all_roles().no_duplicates(),
{
    match role {
        Role::User => assert(all_roles()[0] == role),
        Role::Admin => assert(all_roles()[1] == role),
    }
}

/// `Role::admin_only` holds `Admin` and nothing else, and is part of `Role::all`.
pub proof fn lemma_admin_only(role: Role)
    ensures
        admin_roles().contains(role) <==> role == Role::Admin,
        admin_roles().contains(role) ==> all_roles().contains(role),
{
    if role == Role::Admin {
        assert(admin_roles()[0] == role);
        assert(all_roles()[1] == role);
    }
}

/// The text that names a role, as stored in the database and carried in tokens.
pub open spec fn role_text(role: Role) -> Seq<char> {
    match role {
        Role::User => seq!['u', 's', 'e', 'r'],
        Role::Admin => seq!['a', 'd', 'm', 'i', 'n'],
    }
}

/// The role that an already lowercased text names, if any.
pub open spec fn role_from_text(text: Seq<char>) -> Result<Role, UserError> {
    if text == role_text(Role::User) {
        Ok(Role::User)
    } else if text == role_text(Role::Admin) {
        Ok(Role::Admin)
    } else {
        Err(UserError::InvalidRole)
    }
}

/// ASCII lowercasing of one character: `A`..=`Z` become `a`..=`z`, all else is kept.
pub open spec fn ascii_lower_char(c: char) -> char {
    if 'A' <= c && c <= 'Z' {
        ((c as u32) + 32) as char
    } else {
        c
    }
}

/// ASCII lowercasing of a text, character by character.
pub open spec fn ascii_lowercase(text: Seq<char>) -> Seq<char> {
    text.map_values(|c: char| ascii_lower_char(c))
}

/// What `str::to_lowercase` returns for a text (Unicode lowercasing).
pub uninterp spec fn unicode_lowercase(text: Seq<char>) -> Seq<char>;

/// The role that a text names, compared without regard to case.
pub open spec fn parse_role(text: Seq<char>) -> Result<Role, UserError> {
    role_from_text(unicode_lowercase(text))
}

/// Calls `str::to_lowercase`. Its result is named `unicode_lowercase` of the
/// argument; for a text made only of ASCII characters, std's Unicode lowercase
/// mapping turns `A`..=`Z` into `a`..=`z` and keeps every other character, which
/// the second clause states. Nothing is stated of non-ASCII texts beyond the name.
#[verifier::external_body]
fn to_lowercase(text: &str) -> (lower: String)
    ensures
        lower@ == unicode_lowercase(text@),
        vstd::utf8::is_ascii_chars(text@) ==> lower@ == ascii_lowercase(text@),
{
    text.to_lowercase()
}

impl Role {
    /// The role named by a text that is already lowercase: `"user"` or `"admin"`.
    pub fn from_lowercase(text: &str) -> (role: Result<Role, UserError>)
        ensures
            role == role_from_text(text@),
    {
        proof {
            reveal_strlit("user");
            reveal_strlit("admin");
        }
        let owned = text.to_owned();
        let user_text = "user".to_owned();
        let admin_text = "admin".to_owned();
        assert(user_text@ =~= role_text(Role::User));
        assert(admin_text@ =~= role_text(Role::Admin));
        if owned == user_text {
            Ok(Role::User)
        } else if owned == admin_text {
            Ok(Role::Admin)
        } else {
            Err(UserError::InvalidRole)
        }
    }

    /// The text that names this role.
    pub fn text(&self) -> (text: String)
        ensures
            text@ == role_text(*self),
    {
        proof {
            reveal_strlit("user");
            reveal_strlit("admin");
        }
        match self {
            Role::User => {
                let t = "user".to_owned();
                assert(t@ =~= role_text(Role::User));
                t
            },
            Role::Admin => {
                let t = "admin".to_owned();
                assert(t@ =~= role_text(Role::Admin));
                t
            },
        }
    }
}

/// Every role's text is ASCII and already lowercase, and reading it back gives
/// the same role: `Role::try_from(String::from(role)) == Ok(role)`.
pub proof fn lemma_role_text_round_trip(role: Role)
    ensures
        vstd::utf8::is_ascii_chars(role_text(role)),
        ascii_lowercase(role_text(role)) == role_text(role),
        role_from_text(ascii_lowercase(role_text(role))) == Ok::<Role, UserError>(role),
{
    assert(ascii_lowercase(role_text(role)) =~= role_text(role));
}

/// Distinct roles have distinct texts.
pub proof fn lemma_role_text_injective(a: Role, b: Role)
    ensures
        role_text(a) == role_text(b) <==> a == b,
{
    if a != b {
        assert(role_text(a)[0] != role_text(b)[0]);
    }
}

impl TryFrom<String> for Role {
    type Error = UserError;

    /// Parses a role without regard to case: the text is lowercased, then must
    /// be `"user"` or `"admin"`; any other text is `InvalidRole`.
    fn try_from(value: String) -> (role: Result<Role, UserError>)
        ensures
            role == parse_role(value@),
            vstd::utf8::is_ascii_chars(value@) ==> role == role_from_text(ascii_lowercase(value@)),
    {
        let lower = to_lowercase(value.as_str());
        Role::from_lowercase(lower.as_str())
    }
}

impl vstd::std_specs::convert::TryFromSpecImpl<String> for Role {
    open spec fn obeys_try_from_spec() -> bool {
        true
    }

    open spec fn try_from_spec(v: String) -> Result<Role, UserError> {
        parse_role(v@)
    }
}

impl From<Role> for String {
    /// The text that names the role.
    fn from(value: Role) -> (text: String)
        ensures
            text@ == role_text(value),
    {
        value.text()
    }
}

/// `String::from(role)` states its text in its own `ensures`; no spec-level
/// `String` value can be named for it, so the generic specification is not used.
impl vstd::std_specs::convert::FromSpecImpl<Role> for String {
    open spec fn obeys_from_spec() -> bool {
        false
    }

    open spec fn from_spec(v: Role) -> String {
        arbitrary()
    }
}


/// A user account as stored in the `users` table.
///
/// The id is the 128-bit value of the account's UUID.
pub struct User {
    pub id: u128,
    pub name: String,
    pub email: String,
    pub role: Role,
    pub password_hash: String,
}

/// Whether a 128-bit value has the layout of a random (version 4, RFC 4122
/// variant) UUID: version nibble 4 and variant bits `10`.
pub open spec fn is_random_uuid(id: u128) -> bool {
    &&& (id >> 76u128) & 0xfu128 == 4u128
    &&& (id >> 62u128) & 0x3u128 == 2u128
}

/// Calls `uuid::Uuid::new_v4` and returns the UUID's 128-bit value. The crate
/// draws the bits at random and then forces the version nibble to 4 and the
/// variant bits to `10`; that layout is all that is stated of the result.
#[verifier::external_body]
fn new_v4_id() -> (id: u128)
    ensures
        is_random_uuid(id),
{
    uuid::Uuid::new_v4().as_u128()
}

impl User {
    /// The account created from a registration request, with the given id: the
    /// name and email as given, the ordinary `User` role, and the password
    /// stored as its hash with the server secret.
    pub fn from_register_with_id(id: u128, value: RegisterUser, secret: &str) -> (user: User)
        ensures
            user.id == id,
            user.name@ == value.name@,
            user.email@ == value.email@,
            user.role == Role::User,
            user.password_hash@ == hash_spec(value.password@, secret@),
    {
        let password_hash = hash(value.password.as_str(), secret);
        User {
            id,
            name: value.name,
            email: value.email,
            role: Role::User,
            password_hash,
        }
    }

    /// The account created from a registration request, under a fresh random id.
    pub fn from_register(value: RegisterUser, secret: &str) -> (user: User)
        ensures
            is_random_uuid(user.id),
            user.name@ == value.name@,
            user.email@ == value.email@,
            user.role == Role::User,
            user.password_hash@ == hash_spec(value.password@, secret@),
    {
        let id = new_v4_id();
        User::from_register_with_id(id, value, secret)
    }
}

} // verus!

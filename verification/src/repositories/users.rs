use vstd::prelude::*;

use crate::models::users::{Role, User};

verus! {

/// The number of rows a page may hold.
pub struct Limit(pub u64);

/// The number of rows a page skips.
pub struct Offset(pub u64);

impl core::ops::Deref for Limit {
    type Target = u64;

    fn deref(&self) -> (value: &u64)
        ensures
            *value == self.0,
    {
        &self.0
    }
}

impl core::ops::Deref for Offset {
    type Target = u64;

    fn deref(&self) -> (value: &u64)
        ensures
            *value == self.0,
    {
        &self.0
    }
}

/// The value that a `u64` takes when it is passed to the database as a
/// signed 64-bit integer (`BIGINT`): the same bits, read in two's complement.
pub open spec fn as_bigint(value: u64) -> int {
    if value <= i64::MAX {
        value as int
    } else {
        value - 0x1_0000_0000_0000_0000
    }
}

/// A page bound that fits in a signed 64-bit integer reaches the database unchanged.
pub proof fn lemma_page_param_in_range(value: u64)
    requires
        value <= i64::MAX,
    ensures
        as_bigint(value) == value,
{
}

/// The repository of user accounts.
pub struct UserRepo;

impl UserRepo {
    /// The `LIMIT` and `OFFSET` parameters of a page query, in that order.
    pub fn page_params(offset: &Offset, limit: &Limit) -> (params: (i64, i64))
        ensures
            params.0 as int == as_bigint(limit.0),
            params.1 as int == as_bigint(offset.0),
    {
        let l: u64 = limit.0;
        let o: u64 = offset.0;
        let l_param: i64 = l as i64;
        let o_param: i64 = o as i64;
        assert(l_param as int == as_bigint(l)) by (bit_vector)
            requires l_param == l as i64;
        assert(o_param as int == as_bigint(o)) by (bit_vector)
            requires o_param == o as i64;
        (l_param, o_param)
    }

    /// The row inserted for an administrator: the registered account with its
    /// role raised to `Admin`, every other field kept.
    pub fn admin_row(user: User) -> (row: User)
        ensures
            row.id == user.id,
            row.name@ == user.name@,
            row.email@ == user.email@,
            row.role == Role::Admin,
            row.password_hash@ == user.password_hash@,
    {
        User { role: Role::Admin, ..user }
    }
}

} // verus!

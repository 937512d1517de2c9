use vstd::prelude::*;

verus! {

/// The repository of refresh tokens, one stored digest per user.
pub struct TokenRepo;

} // verus!

use vstd::prelude::*;

verus! {

/// The settings the service reads from its environment.
pub struct Config {
    pub database_url: String,
    pub secret_key: String,
    pub secret_refresh_key: String,
}

} // verus!

use vstd::prelude::*;

verus! {

/// The number of rows a page may hold.
pub struct Limit(pub u64);

/// The number of rows a page skips.
pub struct Offset(pub u64);

impl core::ops::Deref for Limit {
    type Target = u64;

    fn deref(&self) -> (value: &u64)
        ensures
            *value == self.0,
    {
        &self.0
    }
}

impl core::ops::Deref for Offset {
    type Target = u64;

    fn deref(&self) -> (value: &u64)
        ensures
            *value == self.0,
    {
        &self.0
    }
}

} // verus!

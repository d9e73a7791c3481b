//! A stand-in for a database call.

use vstd::prelude::*;
use crate::errors::InternalDbError;

verus! {

/// A database call that always fails.
pub fn do_thing_that_may_fail() -> (r: Result<(), InternalDbError>)
    ensures
        r == Err::<(), InternalDbError>(InternalDbError),
{
    Err(InternalDbError)
}

} // verus!

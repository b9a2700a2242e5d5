//! Listing and creating users.

use vstd::prelude::*;
use vstd::string::*;

verus! {

/// The identifier after which the listing of users starts.
pub const LISTING_OFFSET: i32 = 0;

/// How many users one listing holds at most.
pub const LISTING_LIMIT: i64 = 200;

/// The HTTP status a refused form is answered with.
pub const BAD_REQUEST: u16 = 400;

/// What a refused form is answered with.
pub const EMAIL_INVALID: &'static str = "email invalid";

/// Whether a user may be created with this address: any address but the empty one.
pub fn email_is_acceptable(email: &str) -> (acceptable: bool)
    ensures
        acceptable == (email@.len() > 0),
{
    !email.is_empty()
}

} // verus!

//! The bearer token a session authenticates with.

use vstd::prelude::*;

verus! {

/// Bearer token and its expiry, in seconds since the epoch.
#[derive(Debug)]
pub struct ApiToken {
    pub token: String,
    pub expires: u64,
}

} // verus!

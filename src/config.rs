//! The settings the service starts with.
use vstd::prelude::*;

verus! {

/// Where the credential store is and where the service listens.
pub struct Config {
    pub database_url: String,
    pub bind_addr: String,
}

} // verus!

//! Service configuration, read from the environment by the surrounding
//! service and handed in as plain values.

use vstd::prelude::*;

verus! {

/// Connection string, token-signing secret, token lifetime in seconds,
/// and the port to listen on.
#[derive(Clone, Debug)]
pub struct Config {
    pub database_url: String,
    pub jwt_secret: String,
    pub jwt_expiration: i64,
    pub port: u16,
}

} // verus!

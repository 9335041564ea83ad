//! Claims carried by a signed session token. Signing and verification
//! belong to the surrounding service; this crate only shapes the claims
//! and computes the expiry instant.

use vstd::prelude::*;

verus! {

/// The claims of a session token: subject (the user id), expiry
/// timestamp in seconds, and the user's name and address.
#[derive(Debug)]
pub struct Claims {
    pub sub: String,
    pub exp: i64,
    pub username: String,
    pub email: String,
}

/// The expiry instant of a token issued at `now` with the configured
/// lifetime; `None` when the sum leaves the representable range (the
/// caller treats that as an unusable configuration).
pub fn token_expiry(now: i64, lifetime_seconds: i64) -> (r: Option<i64>)
    ensures
        match r {
            Some(exp) => exp == now + lifetime_seconds,
            None => !(i64::MIN <= now + lifetime_seconds <= i64::MAX),
        },
{
    now.checked_add(lifetime_seconds)
}

} // verus!

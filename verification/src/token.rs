//! The claims of the tokens that the service itself issues.

use vstd::prelude::*;
use vstd::string::StringExecFns;
use crate::error::AuthError;
use crate::state::Identity;

verus! {

/// What an issued token says: whom it is about, until when it is valid, and
/// the whole identity.
#[derive(Debug, Clone)]
pub struct IdentityClaims {
    /// The provider's id of the user.
    pub sub: String,
    /// When the token expires, in seconds since the epoch.
    pub exp: u64,
    /// The identity that the token stands for.
    pub identity: Identity,
}

/// The time at which a token issued at `now` for `expires_in_secs` seconds
/// expires, if that time can be written down.
pub open spec fn spec_expiry(now: i64, expires_in_secs: u64) -> Option<u64> {
    if 0 <= now + expires_in_secs <= u64::MAX {
        Some((now + expires_in_secs) as u64)
    } else {
        None
    }
}

/// The claims of a token for `identity`, issued at time `now` and valid for
/// `expires_in_secs` seconds. An expiry before the epoch or beyond what the
/// claim can hold is a token error.
pub fn issue_claims(identity: Identity, now: i64, expires_in_secs: u64) -> (claims: Result<
    IdentityClaims,
    AuthError,
>)
    ensures
        match spec_expiry(now, expires_in_secs) {
            Some(exp) => claims matches Ok(issued) && issued.exp == exp && issued.sub@
                == identity.external_id@ && issued.identity == identity,
            None => claims matches Err(AuthError::Token(detail)) && detail@
                == "token expiry is out of range"@,
        },
{
    let expiry: i128 = now as i128 + expires_in_secs as i128;
    if 0 <= expiry && expiry <= u64::MAX as i128 {
        Ok(IdentityClaims { sub: identity.external_id.clone(), exp: expiry as u64, identity })
    } else {
        Err(AuthError::Token(String::from_str("token expiry is out of range")))
    }
}

/// The identity that verified claims stand for.
pub fn claimed_identity(claims: IdentityClaims) -> (identity: Identity)
    ensures
        identity == claims.identity,
{
    claims.identity
}

} // verus!

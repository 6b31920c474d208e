//! Identities and the tokens that providers hand out.

use vstd::prelude::*;
use crate::text_map::TextMap;

verus! {

/// The free-form attributes of an identity, by name.
pub type Attributes = TextMap<String>;

/// Who a request or a login belongs to, as a provider or a validator reports
/// it.
#[derive(Debug, Clone)]
pub struct Identity {
    /// The provider that vouches for the identity, such as `github`.
    pub provider_id: String,
    /// The provider's own id of the user.
    pub external_id: String,
    /// The user's e-mail address, if the provider tells it.
    pub email: Option<String>,
    /// The user's name, if the provider tells it.
    pub username: Option<String>,
    /// Whatever else the provider volunteers.
    pub attributes: Attributes,
}

/// What a successful code exchange yields besides the identity.
#[derive(Debug, Clone)]
pub struct OAuthToken {
    /// The access token.
    pub access_token: String,
    /// The kind of token, most often `Bearer`.
    pub token_type: String,
    /// Seconds until the access token expires.
    pub expires_in: Option<u64>,
    /// The token that obtains a new access token.
    pub refresh_token: Option<String>,
}

} // verus!

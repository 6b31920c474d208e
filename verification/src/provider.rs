//! The collaborators that a flow is built on: providers and user mappers.

use vstd::prelude::*;
use vstd::string::StringExecFns;
use crate::error::AuthError;
use crate::state::{Identity, OAuthToken};
use crate::utils::text_of;

verus! {

/// Whether a cookie travels with requests that come from another site.
#[derive(Clone, Copy, Debug, PartialEq, Eq, Structural)]
pub enum SameSite {
    /// Sent with top-level navigations from another site.
    Lax,
    /// Sent with requests from the same site only.
    Strict,
    /// Sent with every request, from whatever site; needs `Secure`.
    Unrestricted,
}

/// Whether `error` is the error of a provider that cannot refresh tokens.
pub open spec fn is_refresh_unsupported(error: AuthError) -> bool {
    error matches AuthError::Provider(detail) && detail@
        == "Token refresh not supported by this provider"@
}

/// Whether `error` is the error of a provider that cannot revoke tokens.
pub open spec fn is_revoke_unsupported(error: AuthError) -> bool {
    error matches AuthError::Provider(detail) && detail@
        == "Token revocation not supported by this provider"@
}

/// The error of a provider that cannot refresh tokens.
pub fn refresh_unsupported() -> (error: AuthError)
    ensures
        is_refresh_unsupported(error),
{
    AuthError::Provider(String::from_str("Token refresh not supported by this provider"))
}

/// The error of a provider that cannot revoke tokens.
pub fn revoke_unsupported() -> (error: AuthError)
    ensures
        is_revoke_unsupported(error),
{
    AuthError::Provider(String::from_str("Token revocation not supported by this provider"))
}

/// An OAuth2 provider.
pub trait OAuthProvider: Send + Sync {
    /// The identifiers that the provider may give itself. Unless a provider
    /// says more, any is possible; the same holds of the other questions.
    open spec fn id_admits(&self, id: Seq<char>) -> bool {
        true
    }

    /// The authorization URLs that the provider may build for a state, a list
    /// of scopes and an optional PKCE challenge.
    open spec fn url_admits(
        &self,
        state: Seq<char>,
        scopes: Seq<&str>,
        code_challenge: Option<Seq<char>>,
        url: Seq<char>,
    ) -> bool {
        true
    }

    /// The outcomes that exchanging a code may have.
    open spec fn exchange_admits(
        &self,
        code: Seq<char>,
        code_verifier: Option<Seq<char>>,
        outcome: Result<(Identity, OAuthToken), AuthError>,
    ) -> bool {
        true
    }

    /// The answers that a provider which offers to refresh tokens may give
    /// to a refresh token. A provider that does not offer it admits none:
    /// its answer is the error of [`refresh_unsupported`].
    open spec fn refresh_admits(
        &self,
        refresh_token: Seq<char>,
        outcome: Result<OAuthToken, AuthError>,
    ) -> bool {
        true
    }

    /// The answers that a provider which offers to revoke tokens may give to
    /// a token. A provider that does not offer it admits none: its answer is
    /// the error of [`revoke_unsupported`].
    open spec fn revoke_admits(&self, token: Seq<char>, outcome: Result<(), AuthError>) -> bool {
        true
    }

    /// The provider's identifier.
    fn provider_id(&self) -> (id: &str)
        ensures
            self.id_admits(id@),
    ;

    /// The URL to which the user is sent to authorize the login.
    fn get_authorization_url(&self, state: &str, scopes: &[&str], code_challenge: Option<&str>) -> (url:
        String)
        ensures
            self.url_admits(state@, scopes@, text_of(code_challenge), url@),
    ;

    /// Exchanges an authorization code for an identity and a token.
    fn exchange_code_for_identity(&self, code: &str, code_verifier: Option<&str>) -> (outcome:
        Result<(Identity, OAuthToken), AuthError>)
        ensures
            self.exchange_admits(code@, text_of(code_verifier), outcome),
    ;

    /// Obtains a new access token. Providers that do not offer this keep the
    /// default, which fails with [`refresh_unsupported`]; the others answer
    /// as they say they may.
    fn refresh_token(&self, refresh_token: &str) -> (outcome: Result<OAuthToken, AuthError>)
        ensures
            (outcome matches Err(error) && is_refresh_unsupported(error)) || self.refresh_admits(
                refresh_token@,
                outcome,
            ),
    {
        Err(refresh_unsupported())
    }

    /// Revokes a token. Providers that do not offer this keep the default,
    /// which fails with [`revoke_unsupported`]; the others answer as they
    /// say they may.
    fn revoke_token(&self, token: &str) -> (outcome: Result<(), AuthError>)
        ensures
            (outcome matches Err(error) && is_revoke_unsupported(error)) || self.revoke_admits(
                token@,
                outcome,
            ),
    {
        Err(revoke_unsupported())
    }
}

/// What `provider` answers to a request to refresh a token: the error of a
/// provider that does not offer it, or an answer that the provider admits.
pub open spec fn spec_refresh_answer<P: OAuthProvider + ?Sized>(
    provider: &P,
    refresh_token: Seq<char>,
    outcome: Result<OAuthToken, AuthError>,
) -> bool {
    (outcome matches Err(error) && is_refresh_unsupported(error)) || provider.refresh_admits(
        refresh_token,
        outcome,
    )
}

/// What `provider` answers to a request to revoke a token: the error of a
/// provider that does not offer it, or an answer that the provider admits.
pub open spec fn spec_revoke_answer<P: OAuthProvider + ?Sized>(
    provider: &P,
    token: Seq<char>,
    outcome: Result<(), AuthError>,
) -> bool {
    (outcome matches Err(error) && is_revoke_unsupported(error)) || provider.revoke_admits(
        token,
        outcome,
    )
}

/// A provider that checks credentials directly, such as an e-mail address and
/// a password.
pub trait CredentialsProvider: Send + Sync {
    /// What the provider accepts as credentials.
    type Credentials;

    /// The outcomes that checking `creds` may have. Unless a provider says
    /// more, any is possible.
    open spec fn admits(&self, creds: Self::Credentials, outcome: Result<Identity, AuthError>)
        -> bool {
        true
    }

    /// Validates the credentials.
    fn authenticate(&self, creds: Self::Credentials) -> (outcome: Result<Identity, AuthError>)
        ensures
            self.admits(creds, outcome),
    ;
}

/// Maps a provider's identity to a user of the application.
pub trait UserMapper: Send + Sync {
    /// The application's user.
    type LocalUser: Send + Sync;

    /// The outcomes that mapping `identity` may have. Unless a mapper says
    /// more, any is possible.
    open spec fn map_admits(
        &self,
        identity: Identity,
        outcome: Result<Self::LocalUser, AuthError>,
    ) -> bool {
        true
    }

    /// Finds or creates the local user of an identity.
    fn map_user(&self, identity: &Identity) -> (outcome: Result<Self::LocalUser, AuthError>)
        ensures
            self.map_admits(*identity, outcome),
    ;
}

impl UserMapper for () {
    type LocalUser = ();

    open spec fn map_admits(&self, identity: Identity, outcome: Result<(), AuthError>) -> bool {
        outcome == Ok::<(), AuthError>(())
    }

    fn map_user(&self, identity: &Identity) -> (outcome: Result<(), AuthError>) {
        Ok(())
    }
}

} // verus!

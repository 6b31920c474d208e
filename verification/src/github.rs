//! The GitHub provider.

use vstd::prelude::*;
use vstd::string::StringExecFns;
use crate::error::AuthError;
use crate::provider::OAuthProvider;
use crate::state::{Attributes, Identity, OAuthToken};

verus! {

/// GitHub as an OAuth2 provider.
#[derive(Debug, Clone)]
pub struct GithubProvider {
    client_id: String,
    client_secret: String,
    redirect_uri: String,
}

/// The address of GitHub's authorization page for a client, a redirect
/// address and a state.
pub open spec fn github_authorization_url(
    client_id: Seq<char>,
    redirect_uri: Seq<char>,
    state: Seq<char>,
) -> Seq<char> {
    "https://github.com/login/oauth/authorize?client_id="@ + client_id + "&redirect_uri="@
        + redirect_uri + "&state="@ + state
}

impl GithubProvider {
    /// The client id registered at GitHub.
    pub closed spec fn spec_client_id(&self) -> Seq<char> {
        self.client_id@
    }

    /// The client secret registered at GitHub.
    pub closed spec fn spec_client_secret(&self) -> Seq<char> {
        self.client_secret@
    }

    /// The address that GitHub sends the user back to.
    pub closed spec fn spec_redirect_uri(&self) -> Seq<char> {
        self.redirect_uri@
    }

    /// A provider for the given client.
    pub fn new(client_id: String, client_secret: String, redirect_uri: String) -> (provider: Self)
        ensures
            provider.spec_client_id() == client_id@,
            provider.spec_client_secret() == client_secret@,
            provider.spec_redirect_uri() == redirect_uri@,
    {
        GithubProvider { client_id, client_secret, redirect_uri }
    }
}

impl OAuthProvider for GithubProvider {
    open spec fn id_admits(&self, id: Seq<char>) -> bool {
        id == "github"@
    }

    /// The URL names the client, the redirect address and the state; scopes
    /// and challenge are not part of it.
    open spec fn url_admits(
        &self,
        state: Seq<char>,
        scopes: Seq<&str>,
        code_challenge: Option<Seq<char>>,
        url: Seq<char>,
    ) -> bool {
        url == github_authorization_url(self.spec_client_id(), self.spec_redirect_uri(), state)
    }

    /// Every code is answered with the same sample identity and an empty
    /// bearer token: this provider does not talk to GitHub.
    open spec fn exchange_admits(
        &self,
        code: Seq<char>,
        code_verifier: Option<Seq<char>>,
        outcome: Result<(Identity, OAuthToken), AuthError>,
    ) -> bool {
        &&& outcome matches Ok((identity, token))
        &&& identity.provider_id@ == "github"@
        &&& identity.external_id@ == "gh_12345"@
        &&& identity.email matches Some(email)
        &&& email@ == "user@example.com"@
        &&& identity.username matches Some(username)
        &&& username@ == "github_user"@
        &&& identity.attributes@ == Map::<Seq<char>, String>::empty()
        &&& token.access_token@ == Seq::<char>::empty()
        &&& token.token_type@ == "Bearer"@
        &&& token.expires_in is None
        &&& token.refresh_token is None
    }

    /// This provider does not refresh tokens.
    open spec fn refresh_admits(
        &self,
        refresh_token: Seq<char>,
        outcome: Result<OAuthToken, AuthError>,
    ) -> bool {
        false
    }

    /// This provider does not revoke tokens.
    open spec fn revoke_admits(&self, token: Seq<char>, outcome: Result<(), AuthError>) -> bool {
        false
    }

    fn provider_id(&self) -> (id: &str) {
        "github"
    }

    fn get_authorization_url(&self, state: &str, scopes: &[&str], code_challenge: Option<&str>) -> (url:
        String) {
        String::from_str("https://github.com/login/oauth/authorize?client_id=").concat(
            self.client_id.as_str(),
        ).concat("&redirect_uri=").concat(self.redirect_uri.as_str()).concat("&state=").concat(
            state,
        )
    }

    fn exchange_code_for_identity(&self, code: &str, code_verifier: Option<&str>) -> (outcome:
        Result<(Identity, OAuthToken), AuthError>) {
        Ok(
            (
                Identity {
                    provider_id: String::from_str("github"),
                    external_id: String::from_str("gh_12345"),
                    email: Some(String::from_str("user@example.com")),
                    username: Some(String::from_str("github_user")),
                    attributes: Attributes::new(),
                },
                OAuthToken {
                    access_token: String::new(),
                    token_type: String::from_str("Bearer"),
                    expires_in: None,
                    refresh_token: None,
                },
            ),
        )
    }
}

} // verus!

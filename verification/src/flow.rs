//! The OAuth2 authorization-code flow and the direct credentials flow.

use vstd::prelude::*;
use vstd::string::StringExecFns;
use std::sync::Arc;
use crate::error::AuthError;
use crate::provider::{
    spec_refresh_answer, spec_revoke_answer, CredentialsProvider, OAuthProvider, UserMapper,
};
use crate::state::{Identity, OAuthToken};
use crate::text::str_equal;
use crate::utils::text_of;

verus! {

/// Whether `c` is a decimal digit or one of `a` to `f`.
pub open spec fn is_lower_hex(c: char) -> bool {
    ('0' <= c <= '9') || ('a' <= c <= 'f')
}

/// The shape of a version-4 UUID in its usual notation: 36 characters, lower
/// case hexadecimal digits in groups of 8, 4, 4, 4 and 12 with hyphens
/// between them, the first digit of the third group being `4`.
pub open spec fn is_uuid_text(text: Seq<char>) -> bool {
    &&& text.len() == 36
    &&& forall|i: int|
        0 <= i < 36 ==> if i == 8 || i == 13 || i == 18 || i == 23 {
            #[trigger] text[i] == '-'
        } else {
            is_lower_hex(text[i])
        }
    &&& text[14] == '4'
}

/// `uuid::Uuid::new_v4` followed by `to_string`: a fresh random UUID in
/// hyphenated lower-case notation. Which one is left open.
#[verifier::external_body]
pub(crate) fn random_uuid() -> (text: String)
    ensures
        is_uuid_text(text@),
{
    uuid::Uuid::new_v4().to_string()
}

/// The check that a callback belongs to the login that was started: the
/// state that came back has to be the state that was issued.
pub fn check_state(received_state: &str, expected_state: &str) -> (verdict: Result<(), AuthError>)
    ensures
        received_state@ == expected_state@ ==> verdict == Ok::<(), AuthError>(()),
        received_state@ != expected_state@ ==> verdict == Err::<(), AuthError>(
            AuthError::CsrfMismatch,
        ),
{
    if str_equal(received_state, expected_state) {
        Ok(())
    } else {
        Err(AuthError::CsrfMismatch)
    }
}

/// The result of a login once the identity has, or has not, been mapped to a
/// local user.
pub open spec fn spec_attach_user<U>(
    identity: Identity,
    token: OAuthToken,
    mapped: Option<Result<U, AuthError>>,
) -> Result<(Identity, OAuthToken, Option<U>), AuthError> {
    match mapped {
        None => Ok((identity, token, None)),
        Some(Ok(user)) => Ok((identity, token, Some(user))),
        Some(Err(error)) => Err(error),
    }
}

/// Joins what the provider returned with what the mapper, if there is one,
/// made of the identity. A failed mapping fails the login.
pub fn attach_user<U>(identity: Identity, token: OAuthToken, mapped: Option<Result<U, AuthError>>)
    -> (outcome: Result<(Identity, OAuthToken, Option<U>), AuthError>)
    ensures
        outcome == spec_attach_user(identity, token, mapped),
{
    match mapped {
        None => Ok((identity, token, None)),
        Some(Ok(user)) => Ok((identity, token, Some(user))),
        Some(Err(error)) => Err(error),
    }
}

/// A login result without the local user.
pub open spec fn spec_without_user<U>(
    outcome: Result<(Identity, OAuthToken, Option<U>), AuthError>,
) -> Result<(Identity, OAuthToken), AuthError> {
    match outcome {
        Ok((identity, token, _)) => Ok((identity, token)),
        Err(error) => Err(error),
    }
}

/// Drops the local user from a login result.
pub fn without_user<U>(outcome: Result<(Identity, OAuthToken, Option<U>), AuthError>) -> (erased:
    Result<(Identity, OAuthToken), AuthError>)
    ensures
        erased == spec_without_user(outcome),
{
    match outcome {
        Ok((identity, token, _)) => Ok((identity, token)),
        Err(error) => Err(error),
    }
}

/// The authorization-code flow of one provider, with an optional mapper from
/// identities to local users.
pub struct OAuth2Flow<P: OAuthProvider, M: UserMapper = ()> {
    provider: P,
    mapper: Option<M>,
}

impl<P: OAuthProvider> OAuth2Flow<P, ()> {
    /// A flow over `provider` that maps no users.
    pub fn new(provider: P) -> (flow: Self)
        ensures
            flow.provider() == provider,
            flow.mapper() is None,
    {
        OAuth2Flow { provider, mapper: None }
    }
}

impl<P: OAuthProvider, M: UserMapper> OAuth2Flow<P, M> {
    /// The provider of the flow.
    pub closed spec fn provider(&self) -> P {
        self.provider
    }

    /// The mapper of the flow.
    pub closed spec fn mapper(&self) -> Option<M> {
        self.mapper
    }

    /// A flow over `provider` that maps each identity with `mapper`.
    pub fn with_mapper(provider: P, mapper: M) -> (flow: Self)
        ensures
            flow.provider() == provider,
            flow.mapper() == Some(mapper),
    {
        OAuth2Flow { provider, mapper: Some(mapper) }
    }

    /// The provider's identifier.
    pub fn provider_id(&self) -> (id: String)
        ensures
            self.provider().id_admits(id@),
    {
        String::from_str(self.provider.provider_id())
    }

    /// Builds the redirect for a login that carries the given state.
    pub fn initiate_login_with_state(
        &self,
        state: String,
        scopes: &[&str],
        pkce_challenge: Option<&str>,
    ) -> (redirect: (String, String))
        ensures
            redirect.1 == state,
            self.provider().url_admits(state@, scopes@, text_of(pkce_challenge), redirect.0@),
    {
        let url = self.provider.get_authorization_url(state.as_str(), scopes, pkce_challenge);
        (url, state)
    }

    /// Starts a login: draws a fresh random state and asks the provider for
    /// the authorization URL that embeds it. Returns the URL and the state;
    /// the caller keeps the state until the callback arrives.
    pub fn initiate_login(&self, scopes: &[&str], pkce_challenge: Option<&str>) -> (redirect: (
        String,
        String,
    ))
        ensures
            is_uuid_text(redirect.1@),
            self.provider().url_admits(
                redirect.1@,
                scopes@,
                text_of(pkce_challenge),
                redirect.0@,
            ),
    {
        self.initiate_login_with_state(random_uuid(), scopes, pkce_challenge)
    }

    /// What a login may result in once the provider has answered the code
    /// exchange with `exchanged`.
    pub open spec fn mapping_admits(
        &self,
        exchanged: Result<(Identity, OAuthToken), AuthError>,
        outcome: Result<(Identity, OAuthToken, Option<M::LocalUser>), AuthError>,
    ) -> bool {
        match exchanged {
            Err(error) => outcome == Err::<(Identity, OAuthToken, Option<M::LocalUser>), AuthError>(
                error,
            ),
            Ok((identity, token)) => match self.mapper() {
                None => outcome == spec_attach_user::<M::LocalUser>(identity, token, None),
                Some(mapper) => exists|mapped: Result<M::LocalUser, AuthError>|
                    #[trigger] mapper.map_admits(identity, mapped) && outcome == spec_attach_user(
                        identity,
                        token,
                        Some(mapped),
                    ),
            },
        }
    }

    /// What finishing a login may result in: a state that differs from the
    /// expected one gives `CsrfMismatch`; otherwise the provider's answer to
    /// the code exchange decides, followed by the mapper.
    pub open spec fn finalize_admits(
        &self,
        code: Seq<char>,
        received_state: Seq<char>,
        expected_state: Seq<char>,
        pkce_verifier: Option<Seq<char>>,
        outcome: Result<(Identity, OAuthToken, Option<M::LocalUser>), AuthError>,
    ) -> bool {
        if received_state != expected_state {
            outcome == Err::<(Identity, OAuthToken, Option<M::LocalUser>), AuthError>(
                AuthError::CsrfMismatch,
            )
        } else {
            exists|exchanged: Result<(Identity, OAuthToken), AuthError>|
                #[trigger] self.provider().exchange_admits(code, pkce_verifier, exchanged)
                    && self.mapping_admits(exchanged, outcome)
        }
    }

    /// Finishes a login after the provider has answered the code exchange.
    pub fn map_exchanged(&self, exchanged: Result<(Identity, OAuthToken), AuthError>) -> (outcome:
        Result<(Identity, OAuthToken, Option<M::LocalUser>), AuthError>)
        ensures
            self.mapping_admits(exchanged, outcome),
            exchanged matches Err(error) ==> outcome == Err::<
                (Identity, OAuthToken, Option<M::LocalUser>),
                AuthError,
            >(error),
    {
        match exchanged {
            Err(error) => Err(error),
            Ok((identity, token)) => {
                let mapped = match &self.mapper {
                    Some(mapper) => Some(mapper.map_user(&identity)),
                    None => None,
                };
                attach_user(identity, token, mapped)
            },
        }
    }

    /// Finishes a login: checks the state, exchanges the code with the
    /// provider and maps the identity if a mapper is configured.
    ///
    /// When the received state is not the expected one the result is
    /// `CsrfMismatch` and the provider is not asked.
    pub fn finalize_login(
        &self,
        code: &str,
        received_state: &str,
        expected_state: &str,
        pkce_verifier: Option<&str>,
    ) -> (outcome: Result<(Identity, OAuthToken, Option<M::LocalUser>), AuthError>)
        ensures
            self.finalize_admits(
                code@,
                received_state@,
                expected_state@,
                text_of(pkce_verifier),
                outcome,
            ),
            received_state@ != expected_state@ ==> outcome == Err::<
                (Identity, OAuthToken, Option<M::LocalUser>),
                AuthError,
            >(AuthError::CsrfMismatch),
    {
        match check_state(received_state, expected_state) {
            Err(error) => {
                return Err(error);
            },
            Ok(_) => {},
        }
        let exchanged = self.provider.exchange_code_for_identity(code, pkce_verifier);
        let ghost seen = exchanged;
        let outcome = self.map_exchanged(exchanged);
        proof {
            assert(self.provider().exchange_admits(code@, text_of(pkce_verifier), seen)
                && self.mapping_admits(seen, outcome));
        }
        outcome
    }

    /// Obtains a new access token from the provider: the answer is the
    /// provider's, which is the error of a provider that cannot refresh
    /// tokens unless the provider offers to.
    pub fn refresh_access_token(&self, refresh_token: &str) -> (outcome: Result<
        OAuthToken,
        AuthError,
    >)
        ensures
            spec_refresh_answer(&self.provider(), refresh_token@, outcome),
    {
        self.provider.refresh_token(refresh_token)
    }

    /// Revokes a token at the provider: the answer is the provider's, which
    /// is the error of a provider that cannot revoke tokens unless the
    /// provider offers to.
    pub fn revoke_token(&self, token: &str) -> (outcome: Result<(), AuthError>)
        ensures
            spec_revoke_answer(&self.provider(), token@, outcome),
    {
        self.provider.revoke_token(token)
    }
}

/// A flow whose provider and mapper types are hidden, so that flows of
/// different providers can be kept side by side.
pub trait ErasedOAuthFlow: Send + Sync {
    /// The identifiers that the flow's provider may give itself. Unless a
    /// flow says more, any is possible; the same holds of the other
    /// questions.
    open spec fn id_admits(&self, id: Seq<char>) -> bool {
        true
    }

    /// The redirects that starting a login may give.
    open spec fn initiate_admits(
        &self,
        scopes: Seq<&str>,
        pkce_challenge: Option<Seq<char>>,
        url: Seq<char>,
        state: Seq<char>,
    ) -> bool {
        true
    }

    /// The outcomes that finishing a login may have.
    open spec fn finalize_admits(
        &self,
        code: Seq<char>,
        received_state: Seq<char>,
        expected_state: Seq<char>,
        pkce_verifier: Option<Seq<char>>,
        outcome: Result<(Identity, OAuthToken), AuthError>,
    ) -> bool {
        true
    }

    /// The provider's identifier.
    fn provider_id(&self) -> (id: String)
        ensures
            self.id_admits(id@),
    ;

    /// Starts a login; returns the redirect URL and the state.
    fn initiate_login(&self, scopes: &[&str], pkce_challenge: Option<&str>) -> (redirect: (
        String,
        String,
    ))
        ensures
            self.initiate_admits(scopes@, text_of(pkce_challenge), redirect.0@, redirect.1@),
    ;

    /// Finishes a login.
    fn finalize_login(
        &self,
        code: &str,
        received_state: &str,
        expected_state: &str,
        pkce_verifier: Option<&str>,
    ) -> (outcome: Result<(Identity, OAuthToken), AuthError>)
        ensures
            self.finalize_admits(
                code@,
                received_state@,
                expected_state@,
                text_of(pkce_verifier),
                outcome,
            ),
    ;
}

impl<P: OAuthProvider, M: UserMapper> ErasedOAuthFlow for OAuth2Flow<P, M> {
    open spec fn id_admits(&self, id: Seq<char>) -> bool {
        self.provider().id_admits(id)
    }

    open spec fn initiate_admits(
        &self,
        scopes: Seq<&str>,
        pkce_challenge: Option<Seq<char>>,
        url: Seq<char>,
        state: Seq<char>,
    ) -> bool {
        is_uuid_text(state) && self.provider().url_admits(state, scopes, pkce_challenge, url)
    }

    open spec fn finalize_admits(
        &self,
        code: Seq<char>,
        received_state: Seq<char>,
        expected_state: Seq<char>,
        pkce_verifier: Option<Seq<char>>,
        outcome: Result<(Identity, OAuthToken), AuthError>,
    ) -> bool {
        exists|full: Result<(Identity, OAuthToken, Option<M::LocalUser>), AuthError>|
            #[trigger] OAuth2Flow::finalize_admits(
                self,
                code,
                received_state,
                expected_state,
                pkce_verifier,
                full,
            ) && outcome == spec_without_user(full)
    }

    fn provider_id(&self) -> (id: String) {
        OAuth2Flow::provider_id(self)
    }

    fn initiate_login(&self, scopes: &[&str], pkce_challenge: Option<&str>) -> (redirect: (
        String,
        String,
    )) {
        OAuth2Flow::initiate_login(self, scopes, pkce_challenge)
    }

    fn finalize_login(
        &self,
        code: &str,
        received_state: &str,
        expected_state: &str,
        pkce_verifier: Option<&str>,
    ) -> (outcome: Result<(Identity, OAuthToken), AuthError>) {
        let full = OAuth2Flow::finalize_login(
            self,
            code,
            received_state,
            expected_state,
            pkce_verifier,
        );
        without_user(full)
    }
}

impl<T: ErasedOAuthFlow + ?Sized> ErasedOAuthFlow for Box<T> {
    open spec fn id_admits(&self, id: Seq<char>) -> bool {
        (**self).id_admits(id)
    }

    open spec fn initiate_admits(
        &self,
        scopes: Seq<&str>,
        pkce_challenge: Option<Seq<char>>,
        url: Seq<char>,
        state: Seq<char>,
    ) -> bool {
        (**self).initiate_admits(scopes, pkce_challenge, url, state)
    }

    open spec fn finalize_admits(
        &self,
        code: Seq<char>,
        received_state: Seq<char>,
        expected_state: Seq<char>,
        pkce_verifier: Option<Seq<char>>,
        outcome: Result<(Identity, OAuthToken), AuthError>,
    ) -> bool {
        (**self).finalize_admits(code, received_state, expected_state, pkce_verifier, outcome)
    }

    fn provider_id(&self) -> (id: String) {
        (**self).provider_id()
    }

    fn initiate_login(&self, scopes: &[&str], pkce_challenge: Option<&str>) -> (redirect: (
        String,
        String,
    )) {
        (**self).initiate_login(scopes, pkce_challenge)
    }

    fn finalize_login(
        &self,
        code: &str,
        received_state: &str,
        expected_state: &str,
        pkce_verifier: Option<&str>,
    ) -> (outcome: Result<(Identity, OAuthToken), AuthError>) {
        (**self).finalize_login(code, received_state, expected_state, pkce_verifier)
    }
}

impl<T: ErasedOAuthFlow + ?Sized> ErasedOAuthFlow for Arc<T> {
    open spec fn id_admits(&self, id: Seq<char>) -> bool {
        (**self).id_admits(id)
    }

    open spec fn initiate_admits(
        &self,
        scopes: Seq<&str>,
        pkce_challenge: Option<Seq<char>>,
        url: Seq<char>,
        state: Seq<char>,
    ) -> bool {
        (**self).initiate_admits(scopes, pkce_challenge, url, state)
    }

    open spec fn finalize_admits(
        &self,
        code: Seq<char>,
        received_state: Seq<char>,
        expected_state: Seq<char>,
        pkce_verifier: Option<Seq<char>>,
        outcome: Result<(Identity, OAuthToken), AuthError>,
    ) -> bool {
        (**self).finalize_admits(code, received_state, expected_state, pkce_verifier, outcome)
    }

    fn provider_id(&self) -> (id: String) {
        (**self).provider_id()
    }

    fn initiate_login(&self, scopes: &[&str], pkce_challenge: Option<&str>) -> (redirect: (
        String,
        String,
    )) {
        (**self).initiate_login(scopes, pkce_challenge)
    }

    fn finalize_login(
        &self,
        code: &str,
        received_state: &str,
        expected_state: &str,
        pkce_verifier: Option<&str>,
    ) -> (outcome: Result<(Identity, OAuthToken), AuthError>) {
        (**self).finalize_login(code, received_state, expected_state, pkce_verifier)
    }
}

/// The result of a credentials check once the identity has, or has not,
/// been mapped to a local user.
pub open spec fn spec_with_local_user<U>(
    identity: Identity,
    mapped: Option<Result<U, AuthError>>,
) -> Result<(Identity, Option<U>), AuthError> {
    match mapped {
        None => Ok((identity, None)),
        Some(Ok(user)) => Ok((identity, Some(user))),
        Some(Err(error)) => Err(error),
    }
}

/// Joins a checked identity with what the mapper, if there is one, made of
/// it. A failed mapping fails the check.
pub fn with_local_user<U>(identity: Identity, mapped: Option<Result<U, AuthError>>) -> (outcome:
    Result<(Identity, Option<U>), AuthError>)
    ensures
        outcome == spec_with_local_user(identity, mapped),
{
    match mapped {
        None => Ok((identity, None)),
        Some(Ok(user)) => Ok((identity, Some(user))),
        Some(Err(error)) => Err(error),
    }
}

/// The direct credentials flow of one provider, with an optional mapper from
/// identities to local users.
pub struct CredentialsFlow<P: CredentialsProvider, M: UserMapper = ()> {
    provider: P,
    mapper: Option<M>,
}

impl<P: CredentialsProvider> CredentialsFlow<P, ()> {
    /// A flow over `provider` that maps no users.
    pub fn new(provider: P) -> (flow: Self)
        ensures
            flow.provider() == provider,
            flow.mapper() is None,
    {
        CredentialsFlow { provider, mapper: None }
    }
}

impl<P: CredentialsProvider, M: UserMapper> CredentialsFlow<P, M> {
    /// The provider of the flow.
    pub closed spec fn provider(&self) -> P {
        self.provider
    }

    /// The mapper of the flow.
    pub closed spec fn mapper(&self) -> Option<M> {
        self.mapper
    }

    /// A flow over `provider` that maps each identity with `mapper`.
    pub fn with_mapper(provider: P, mapper: M) -> (flow: Self)
        ensures
            flow.provider() == provider,
            flow.mapper() == Some(mapper),
    {
        CredentialsFlow { provider, mapper: Some(mapper) }
    }

    /// What authenticating may result in once the provider has answered
    /// `checked`.
    pub open spec fn mapping_admits(
        &self,
        checked: Result<Identity, AuthError>,
        outcome: Result<(Identity, Option<M::LocalUser>), AuthError>,
    ) -> bool {
        match checked {
            Err(error) => outcome == Err::<(Identity, Option<M::LocalUser>), AuthError>(error),
            Ok(identity) => match self.mapper() {
                None => outcome == spec_with_local_user::<M::LocalUser>(identity, None),
                Some(mapper) => exists|mapped: Result<M::LocalUser, AuthError>|
                    #[trigger] mapper.map_admits(identity, mapped) && outcome
                        == spec_with_local_user(identity, Some(mapped)),
            },
        }
    }

    /// Authenticates with the given credentials and maps the identity if a
    /// mapper is configured.
    pub fn authenticate(&self, creds: P::Credentials) -> (outcome: Result<
        (Identity, Option<M::LocalUser>),
        AuthError,
    >)
        ensures
            exists|checked: Result<Identity, AuthError>|
                #[trigger] self.provider().admits(creds, checked) && self.mapping_admits(
                    checked,
                    outcome,
                ),
    {
        let checked = self.provider.authenticate(creds);
        let ghost seen = checked;
        let outcome = match checked {
            Err(error) => Err(error),
            Ok(identity) => {
                let mapped = match &self.mapper {
                    Some(mapper) => Some(mapper.map_user(&identity)),
                    None => None,
                };
                with_local_user(identity, mapped)
            },
        };
        proof {
            assert(self.provider().admits(creds, seen) && self.mapping_admits(seen, outcome));
        }
        outcome
    }
}

} // verus!

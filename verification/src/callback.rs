//! What a web adapter has to decide around a login: the cookies that carry a
//! login over the redirect, the scopes of a login request, what becomes of a
//! callback, and how a guard's answer is shown.

use vstd::prelude::*;
use vstd::string::StrSliceExecFns;
use vstd::string::StringExecFns;
use crate::error::AuthError;
use crate::flow::{is_uuid_text, random_uuid, ErasedOAuthFlow};
use crate::jwt::ValidationError;
use crate::provider::SameSite;
use crate::session::{
    is_range_error, new_session, spec_clock_reading, spec_in_range, spec_session_seconds,
    utc_now_seconds, Session,
    SessionConfig, SessionStore, DEFAULT_SESSION_SECONDS,
};
use crate::state::{Identity, OAuthToken};
use crate::text::{chars_of, decimal, spec_decimal, starts_with};
use crate::utils::text_of;

verus! {

/// The query of a callback request.
#[derive(Debug, Clone)]
pub struct OAuthCallbackParams {
    /// The authorization code.
    pub code: String,
    /// The state that the provider hands back.
    pub state: String,
}

/// The query of a login request.
#[derive(Debug, Clone)]
pub struct OAuthLoginParams {
    /// The scopes to ask for, separated by spaces or commas.
    pub scope: Option<String>,
    /// Where to send the user after the login.
    pub success_url: Option<String>,
}

/// A cookie to set on a response.
#[derive(Debug, Clone)]
pub struct Cookie {
    /// The cookie's name.
    pub name: String,
    /// The cookie's value.
    pub value: String,
    /// The path that the cookie is valid for.
    pub path: String,
    /// Whether scripts are kept from reading the cookie.
    pub http_only: bool,
    /// Whether the cookie is sent over HTTPS only.
    pub secure: bool,
    /// Whether the cookie travels with requests from other sites, if set.
    pub same_site: Option<SameSite>,
    /// The seconds that the cookie lasts, if set.
    pub max_age: Option<i64>,
}

/// The seconds that the cookies of a login attempt last: a quarter of an
/// hour.
pub const FLOW_COOKIE_SECONDS: i64 = 900;

/// The name of the cookie that keeps the PKCE verifier of a login attempt.
pub open spec fn spec_flow_cookie_name(state: Seq<char>) -> Seq<char> {
    "authkestra_flow_"@ + state
}

/// The name of the cookie that keeps the address to return to after a login.
pub open spec fn spec_success_cookie_name(state: Seq<char>) -> Seq<char> {
    "authkestra_success_"@ + state
}

/// The name of the cookie that keeps the PKCE verifier of the login attempt
/// with the given state.
pub fn flow_cookie_name(state: &str) -> (name: String)
    ensures
        name@ == spec_flow_cookie_name(state@),
{
    String::from_str("authkestra_flow_").concat(state)
}

/// The name of the cookie that keeps the address to return to after the
/// login attempt with the given state.
pub fn success_cookie_name(state: &str) -> (name: String)
    ensures
        name@ == spec_success_cookie_name(state@),
{
    String::from_str("authkestra_success_").concat(state)
}

/// A cookie of a login attempt: valid for the whole site, hidden from
/// scripts, sent over HTTPS only and with top-level navigations from other
/// sites, for a quarter of an hour.
pub open spec fn is_flow_cookie(cookie: Cookie, name: Seq<char>, value: Seq<char>) -> bool {
    &&& cookie.name@ == name
    &&& cookie.value@ == value
    &&& cookie.path@ == "/"@
    &&& cookie.http_only
    &&& cookie.secure
    &&& cookie.same_site == Some(SameSite::Lax)
    &&& cookie.max_age == Some(FLOW_COOKIE_SECONDS)
}

/// A cookie that makes the client forget the cookie `name`: empty, valid for
/// the whole site, secure, and of age zero.
pub open spec fn is_removal_cookie(cookie: Cookie, name: Seq<char>) -> bool {
    &&& cookie.name@ == name
    &&& cookie.value@ == Seq::<char>::empty()
    &&& cookie.path@ == "/"@
    &&& !cookie.http_only
    &&& cookie.secure
    &&& cookie.same_site is None
    &&& cookie.max_age == Some(0i64)
}

/// The session cookie with the given value under `config`.
pub open spec fn is_session_cookie(cookie: Cookie, config: SessionConfig, value: Seq<char>) -> bool {
    &&& cookie.name@ == config.cookie_name@
    &&& cookie.value@ == value
    &&& cookie.path@ == config.path@
    &&& cookie.http_only == config.http_only
    &&& cookie.secure == config.secure
    &&& cookie.same_site == Some(config.same_site)
    &&& cookie.max_age == config.max_age
}

/// Builds a cookie of a login attempt.
pub fn flow_cookie(name: String, value: String) -> (cookie: Cookie)
    ensures
        is_flow_cookie(cookie, name@, value@),
{
    Cookie {
        name,
        value,
        path: String::from_str("/"),
        http_only: true,
        secure: true,
        same_site: Some(SameSite::Lax),
        max_age: Some(FLOW_COOKIE_SECONDS),
    }
}

/// Builds the cookie that removes the cookie `name`.
pub fn removal_cookie(name: String) -> (cookie: Cookie)
    ensures
        is_removal_cookie(cookie, name@),
{
    Cookie {
        name,
        value: String::new(),
        path: String::from_str("/"),
        http_only: false,
        secure: true,
        same_site: None,
        max_age: Some(0),
    }
}

/// Builds the session cookie.
pub fn session_cookie(config: &SessionConfig, value: String) -> (cookie: Cookie)
    ensures
        is_session_cookie(cookie, *config, value@),
{
    Cookie {
        name: config.cookie_name.clone(),
        value,
        path: config.path.clone(),
        http_only: config.http_only,
        secure: config.secure,
        same_site: Some(config.same_site),
        max_age: config.max_age,
    }
}

/// The characters that separate scopes in a login request.
pub open spec fn is_scope_separator(c: char) -> bool {
    c == ' ' || c == ','
}

/// The length of the first scope of `s`: the position of the first
/// separator, or the length of `s`.
pub open spec fn spec_scope_end(s: Seq<char>) -> int
    decreases s.len(),
{
    if s.len() == 0 || is_scope_separator(s[0]) {
        0
    } else {
        1 + spec_scope_end(s.drop_first())
    }
}

/// The scopes of a login request: the non-empty stretches between
/// separators, in order.
pub open spec fn spec_split_scopes(s: Seq<char>) -> Seq<Seq<char>>
    decreases s.len(),
{
    let end = spec_scope_end(s);
    let rest = if 0 <= end < s.len() {
        spec_split_scopes(s.skip(end + 1))
    } else {
        Seq::empty()
    };
    if end > 0 {
        seq![s.take(end)] + rest
    } else {
        rest
    }
}

proof fn lemma_scope_end_unique(s: Seq<char>, at: int)
    requires
        0 <= at <= s.len(),
        forall|k: int| 0 <= k < at ==> !is_scope_separator(s[k]),
        at < s.len() ==> is_scope_separator(s[at]),
    ensures
        spec_scope_end(s) == at,
    decreases s.len(),
{
    if s.len() == 0 || is_scope_separator(s[0]) {
    } else {
        let rest = s.drop_first();
        assert forall|k: int| 0 <= k < at - 1 implies !is_scope_separator(rest[k]) by {
            assert(rest[k] == s[k + 1]);
        }
        if at < s.len() {
            assert(rest[at - 1] == s[at]);
        }
        lemma_scope_end_unique(rest, at - 1);
    }
}

/// The texts of a list of strings.
pub open spec fn texts(strings: Seq<String>) -> Seq<Seq<char>> {
    strings.map_values(|s: String| s@)
}

/// Splits the scopes of a login request at spaces and commas and drops the
/// empty ones.
pub fn split_scopes(scope: &str) -> (scopes: Vec<String>)
    ensures
        texts(scopes@) == spec_split_scopes(scope@),
{
    let chars = chars_of(scope);
    let total = chars.len();
    let mut scopes: Vec<String> = Vec::new();
    let mut start: usize = 0;
    proof {
        assert(chars@.subrange(0, total as int) =~= scope@);
        assert(texts(scopes@) =~= Seq::<Seq<char>>::empty());
        assert(Seq::<Seq<char>>::empty() + spec_split_scopes(scope@) =~= spec_split_scopes(scope@));
    }
    loop
        invariant
            0 <= start <= total,
            total == chars@.len(),
            chars@ == scope@,
            spec_split_scopes(scope@) == texts(scopes@) + spec_split_scopes(
                chars@.subrange(start as int, total as int),
            ),
        decreases total - start,
    {
        let ghost rest = chars@.subrange(start as int, total as int);
        let ghost before = scopes@;
        let mut end: usize = start;
        while end < total && chars[end] != ' ' && chars[end] != ','
            invariant
                start <= end <= total,
                total == chars@.len(),
                forall|k: int| start <= k < end ==> !is_scope_separator(chars@[k]),
            decreases total - end,
        {
            end = end + 1;
        }
        proof {
            assert forall|k: int| 0 <= k < end - start implies !is_scope_separator(rest[k]) by {
                assert(rest[k] == chars@[start + k]);
            }
            if end < total {
                assert(rest[end - start] == chars@[end as int]);
            }
            lemma_scope_end_unique(rest, end - start);
            assert(rest.take(end - start) =~= chars@.subrange(start as int, end as int));
        }
        if end > start {
            scopes.push(String::from_str(scope.substring_char(start, end)));
            proof {
                assert(texts(scopes@) =~= texts(before) + seq![rest.take(end - start)]);
            }
        }
        if end >= total {
            proof {
                assert(texts(scopes@) + Seq::<Seq<char>>::empty() =~= texts(scopes@));
                assert(texts(before) + (seq![rest.take(end - start)] + Seq::<Seq<char>>::empty())
                    =~= texts(before) + seq![rest.take(end - start)]);
            }
            return scopes;
        }
        proof {
            let tail = chars@.subrange(end as int + 1, total as int);
            assert(rest.skip(end - start + 1) =~= tail);
            assert(texts(before) + (seq![rest.take(end - start)] + spec_split_scopes(tail)) =~= (
            texts(before) + seq![rest.take(end - start)]) + spec_split_scopes(tail));
        }
        start = end + 1;
    }
}

/// Where a login request sends the user, and the cookies that go along.
#[derive(Debug)]
pub struct LoginRedirect {
    /// The provider's authorization URL.
    pub location: String,
    /// The cookies of the login attempt.
    pub cookies: Vec<Cookie>,
}

/// The redirect of a login attempt with the given state: to `url`, with a
/// cookie that keeps the PKCE verifier and, if the user is to be sent
/// somewhere afterwards, a cookie that keeps that address. Both cookies are
/// named after the state.
pub open spec fn is_login_redirect(
    redirect: LoginRedirect,
    url: Seq<char>,
    state: Seq<char>,
    pkce_verifier: Seq<char>,
    success_url: Option<Seq<char>>,
) -> bool {
    &&& redirect.location@ == url
    &&& match success_url {
        Some(address) => {
            &&& redirect.cookies@.len() == 2
            &&& is_flow_cookie(redirect.cookies@[0], spec_flow_cookie_name(state), pkce_verifier)
            &&& is_flow_cookie(redirect.cookies@[1], spec_success_cookie_name(state), address)
        },
        None => {
            &&& redirect.cookies@.len() == 1
            &&& is_flow_cookie(redirect.cookies@[0], spec_flow_cookie_name(state), pkce_verifier)
        },
    }
}

/// Puts together the redirect of a login attempt.
pub fn login_redirect(url: String, state: &str, pkce_verifier: String, success_url: Option<&str>) -> (redirect:
    LoginRedirect)
    ensures
        is_login_redirect(redirect, url@, state@, pkce_verifier@, text_of(success_url)),
{
    let mut cookies: Vec<Cookie> = Vec::new();
    cookies.push(flow_cookie(flow_cookie_name(state), pkce_verifier));
    match success_url {
        Some(address) => {
            cookies.push(flow_cookie(success_cookie_name(state), String::from_str(address)));
        },
        None => {},
    }
    LoginRedirect { location: url, cookies }
}

/// The text views of a list of string slices.
pub open spec fn slice_texts(items: Seq<&str>) -> Seq<Seq<char>> {
    items.map_values(|s: &str| s@)
}

/// Starts a login at `flow` for a login request: asks for the scopes of the
/// request, hands the PKCE challenge to the provider and keeps the verifier
/// in a cookie.
pub fn initiate_oauth_login<F: ErasedOAuthFlow + ?Sized>(
    flow: &F,
    params: &OAuthLoginParams,
    pkce_challenge: &str,
    pkce_verifier: String,
) -> (redirect: LoginRedirect)
    ensures
        exists|scopes: Seq<&str>, url: Seq<char>, state: Seq<char>|
            {
                &&& slice_texts(scopes) == spec_split_scopes(
                    match params.scope {
                        Some(scope) => scope@,
                        None => Seq::empty(),
                    },
                )
                &&& #[trigger] flow.initiate_admits(scopes, Some(pkce_challenge@), url, state)
                &&& is_login_redirect(
                    redirect,
                    url,
                    state,
                    pkce_verifier@,
                    match params.success_url {
                        Some(address) => Some(address@),
                        None => None,
                    },
                )
            },
{
    let scopes = match &params.scope {
        Some(scope) => split_scopes(scope.as_str()),
        None => {
            let none = split_scopes("");
            proof {
                reveal_strlit("");
                assert(""@ =~= Seq::<char>::empty());
            }
            none
        },
    };
    let mut wanted: Vec<&str> = Vec::new();
    let mut i: usize = 0;
    while i < scopes.len()
        invariant
            0 <= i <= scopes@.len(),
            wanted@.len() == i,
            forall|k: int| 0 <= k < i ==> wanted@[k]@ == scopes@[k]@,
        decreases scopes@.len() - i,
    {
        wanted.push(scopes[i].as_str());
        i = i + 1;
    }
    proof {
        assert(slice_texts(wanted@) =~= texts(scopes@));
    }
    let (url, state) = flow.initiate_login(wanted.as_slice(), Some(pkce_challenge));
    let success_url = match &params.success_url {
        Some(address) => Some(address.as_str()),
        None => None,
    };
    let redirect = login_redirect(url, state.as_str(), pkce_verifier, success_url);
    proof {
        assert(flow.initiate_admits(wanted@, Some(pkce_challenge@), url@, state@));
    }
    redirect
}

/// The texts stored in a map of strings.
pub open spec fn text_values(map: Map<Seq<char>, String>) -> Map<Seq<char>, Seq<char>> {
    map.map_values(|s: String| s@)
}

/// The attributes of an identity after the tokens of a login have been put
/// beside them: the access token under `access_token`; the time at which it
/// expires, in seconds since the epoch and in decimal, under `expires_at` if
/// the provider told how long it lasts; the refresh token under
/// `refresh_token` if there is one.
pub open spec fn spec_stash_tokens(
    attributes: Map<Seq<char>, Seq<char>>,
    token: OAuthToken,
    now: i64,
) -> Map<Seq<char>, Seq<char>> {
    let with_access = attributes.insert("access_token"@, token.access_token@);
    let with_expiry = match token.expires_in {
        Some(seconds) => with_access.insert("expires_at"@, spec_decimal(now + seconds)),
        None => with_access,
    };
    match token.refresh_token {
        Some(refresh) => with_expiry.insert("refresh_token"@, refresh@),
        None => with_expiry,
    }
}

/// Puts the tokens of a login among the attributes of the identity.
pub fn stash_tokens(identity: &mut Identity, token: OAuthToken, now: i64)
    ensures
        text_values(final(identity).attributes@) == spec_stash_tokens(
            text_values(old(identity).attributes@),
            token,
            now,
        ),
        final(identity).provider_id == old(identity).provider_id,
        final(identity).external_id == old(identity).external_id,
        final(identity).email == old(identity).email,
        final(identity).username == old(identity).username,
{
    let ghost start = text_values(identity.attributes@);
    identity.attributes.insert(String::from_str("access_token"), token.access_token);
    proof {
        assert(text_values(identity.attributes@) =~= start.insert(
            "access_token"@,
            token.access_token@,
        ));
    }
    let ghost with_access = text_values(identity.attributes@);
    match token.expires_in {
        Some(seconds) => {
            let expires_at: i128 = now as i128 + seconds as i128;
            identity.attributes.insert(String::from_str("expires_at"), decimal(expires_at));
            proof {
                assert(text_values(identity.attributes@) =~= with_access.insert(
                    "expires_at"@,
                    spec_decimal(now + seconds),
                ));
            }
        },
        None => {},
    }
    let ghost with_expiry = text_values(identity.attributes@);
    match token.refresh_token {
        Some(refresh) => {
            identity.attributes.insert(String::from_str("refresh_token"), refresh);
            proof {
                assert(text_values(identity.attributes@) =~= with_expiry.insert(
                    "refresh_token"@,
                    refresh@,
                ));
            }
        },
        None => {},
    }
}

/// The body of the answer to a callback that hands out a token.
#[derive(Debug, Clone)]
pub struct TokenResponse {
    /// The signed token.
    pub access_token: String,
    /// Always `Bearer`.
    pub token_type: String,
    /// The seconds for which the token is valid.
    pub expires_in: u64,
}

/// The body that hands out `jwt`, valid for `expires_in_secs` seconds.
pub fn token_response(jwt: String, expires_in_secs: u64) -> (body: TokenResponse)
    ensures
        body.access_token == jwt,
        body.token_type@ == "Bearer"@,
        body.expires_in == expires_in_secs,
{
    TokenResponse {
        access_token: jwt,
        token_type: String::from_str("Bearer"),
        expires_in: expires_in_secs,
    }
}

/// What a callback or a logout answers. Every answer may set cookies, in
/// the order given.
#[derive(Debug)]
pub enum CallbackResponse {
    /// Send the user on.
    Redirect {
        /// Where to send the user.
        location: String,
        /// The cookies to set.
        cookies: Vec<Cookie>,
    },
    /// The login is refused.
    Unauthorized {
        /// Why.
        detail: String,
        /// The cookies to set.
        cookies: Vec<Cookie>,
    },
    /// The server could not do its part.
    ServerError {
        /// Why.
        detail: String,
        /// The cookies to set.
        cookies: Vec<Cookie>,
    },
    /// The login ends in a token, sent as the body of the answer.
    Issued {
        /// The body.
        body: TokenResponse,
        /// The cookies to set.
        cookies: Vec<Cookie>,
    },
}

/// `cookies` removes the cookie of the login attempt with the given state,
/// and does nothing else.
pub open spec fn consumes_flow_cookie(cookies: Seq<Cookie>, state: Seq<char>) -> bool {
    cookies.len() == 1 && is_removal_cookie(cookies[0], spec_flow_cookie_name(state))
}

/// The cookies that end a login attempt: the removal of its cookie.
pub fn consume_flow_cookie(state: &str) -> (cookies: Vec<Cookie>)
    ensures
        consumes_flow_cookie(cookies@, state@),
{
    let mut cookies: Vec<Cookie> = Vec::new();
    cookies.push(removal_cookie(flow_cookie_name(state)));
    cookies
}

/// The answer to a callback that arrives without the cookie of its login
/// attempt: it is refused, and there is no cookie to remove.
pub fn missing_flow_cookie() -> (response: CallbackResponse)
    ensures
        response matches CallbackResponse::Unauthorized { detail, cookies } && detail@
            == "CSRF validation failed or session expired"@ && cookies@.len() == 0,
{
    CallbackResponse::Unauthorized {
        detail: String::from_str("CSRF validation failed or session expired"),
        cookies: Vec::new(),
    }
}

/// The answer to a callback whose login failed with `error`: it is refused,
/// and the cookie of the login attempt is removed.
pub fn authentication_failed(error: &AuthError, state: &str) -> (response: CallbackResponse)
    ensures
        response matches CallbackResponse::Unauthorized { detail, cookies } && detail@
            == "Authentication failed: "@ + error.spec_message() && consumes_flow_cookie(
            cookies@,
            state@,
        ),
{
    CallbackResponse::Unauthorized {
        detail: String::from_str("Authentication failed: ").concat(error.message().as_str()),
        cookies: consume_flow_cookie(state),
    }
}

/// The answer to a callback whose session would end at a time that cannot
/// be written down: a server error, and the cookie of the login attempt is
/// removed.
pub fn expiry_out_of_range(state: &str) -> (response: CallbackResponse)
    ensures
        response matches CallbackResponse::ServerError { detail, cookies } && detail@
            == "session expiry is out of range"@ && consumes_flow_cookie(cookies@, state@),
{
    CallbackResponse::ServerError {
        detail: String::from_str("session expiry is out of range"),
        cookies: consume_flow_cookie(state),
    }
}

/// The session of a finished login: the identity with the tokens among its
/// attributes, under the id `id`, from time `now` on.
pub fn callback_session(
    identity: Identity,
    token: OAuthToken,
    id: String,
    now: i64,
    max_age: Option<i64>,
) -> (session: Session)
    requires
        spec_in_range(now, max_age),
    ensures
        session.id == id,
        is_callback_session(session, identity, token, now, max_age),
{
    let mut identity = identity;
    stash_tokens(&mut identity, token, now);
    new_session(id, identity, now, max_age)
}

/// The session of a login that finished at time `now`, if its end can be
/// written down; the range error if it cannot.
pub fn callback_session_at(
    identity: Identity,
    token: OAuthToken,
    id: String,
    now: i64,
    max_age: Option<i64>,
) -> (outcome: Result<Session, AuthError>)
    ensures
        match outcome {
            Ok(session) => spec_in_range(now, max_age) && session.id == id && is_callback_session(
                session,
                identity,
                token,
                now,
                max_age,
            ),
            Err(error) => !spec_in_range(now, max_age) && is_range_error(error),
        },
{
    let seconds = match max_age {
        Some(seconds) => seconds,
        None => DEFAULT_SESSION_SECONDS,
    };
    match now.checked_add(seconds) {
        Some(_) => Ok(callback_session(identity, token, id, now, max_age)),
        None => Err(AuthError::Session(String::from_str("session expiry is out of range"))),
    }
}

/// `response` refuses a callback that came without the cookie of its login
/// attempt, and sets no cookie.
pub open spec fn is_missing_cookie_answer(response: CallbackResponse) -> bool {
    response matches CallbackResponse::Unauthorized { detail, cookies } && detail@
        == "CSRF validation failed or session expired"@ && cookies@.len() == 0
}

/// `response` refuses a callback whose login failed with `error`, and
/// removes the cookie of the login attempt.
pub open spec fn is_failed_login_answer(
    response: CallbackResponse,
    error: AuthError,
    state: Seq<char>,
) -> bool {
    response matches CallbackResponse::Unauthorized { detail, cookies } && detail@
        == "Authentication failed: "@ + error.spec_message() && consumes_flow_cookie(
        cookies@,
        state,
    )
}

/// `response` reports a session whose end cannot be written down, and
/// removes the cookie of the login attempt.
pub open spec fn is_range_answer(response: CallbackResponse, state: Seq<char>) -> bool {
    response matches CallbackResponse::ServerError { detail, cookies } && detail@
        == "session expiry is out of range"@ && consumes_flow_cookie(cookies@, state)
}

/// The first step of a callback: the PKCE verifier that the cookie of the
/// login attempt kept, or the answer to a callback that came without it.
pub fn callback_verifier<'a>(pkce_verifier: Option<&'a str>) -> (step: Result<
    &'a str,
    CallbackResponse,
>)
    ensures
        match pkce_verifier {
            Some(verifier) => step matches Ok(kept) && kept@ == verifier@,
            None => step matches Err(response) && is_missing_cookie_answer(response),
        },
{
    match pkce_verifier {
        Some(verifier) => Ok(verifier),
        None => Err(missing_flow_cookie()),
    }
}

/// The step after the flow has finished the login: what the provider
/// returned, or the answer to a callback whose login failed.
pub fn finished_login(login: Result<(Identity, OAuthToken), AuthError>, state: &str) -> (step:
    Result<(Identity, OAuthToken), CallbackResponse>)
    ensures
        match login {
            Ok(found) => step == Ok::<(Identity, OAuthToken), CallbackResponse>(found),
            Err(error) => step matches Err(response) && is_failed_login_answer(
                response,
                error,
                state@,
            ),
        },
{
    match login {
        Ok(found) => Ok(found),
        Err(error) => Err(authentication_failed(&error, state)),
    }
}

/// The step after id and time are drawn: the session to hand to the store,
/// or the answer to a callback whose session would end at a time that
/// cannot be written down.
pub fn session_or_answer(
    identity: Identity,
    token: OAuthToken,
    id: String,
    now: i64,
    max_age: Option<i64>,
    state: &str,
) -> (step: Result<Session, CallbackResponse>)
    ensures
        match step {
            Ok(session) => spec_in_range(now, max_age) && session.id == id && is_callback_session(
                session,
                identity,
                token,
                now,
                max_age,
            ),
            Err(response) => !spec_in_range(now, max_age) && is_range_answer(response, state@),
        },
{
    match callback_session_at(identity, token, id, now, max_age) {
        Ok(session) => Ok(session),
        Err(_) => Err(expiry_out_of_range(state)),
    }
}

/// `session` is the session of a login that finished at time `now` with
/// `identity` and `token`: it holds the identity with the tokens among its
/// attributes and ends the configured time after `now`.
pub open spec fn is_callback_session(
    session: Session,
    identity: Identity,
    token: OAuthToken,
    now: i64,
    max_age: Option<i64>,
) -> bool {
    &&& session.expires_at == now + spec_session_seconds(max_age)
    &&& text_values(session.identity.attributes@) == spec_stash_tokens(
        text_values(identity.attributes@),
        token,
        now,
    )
    &&& session.identity.provider_id == identity.provider_id
    &&& session.identity.external_id == identity.external_id
    &&& session.identity.email == identity.email
    &&& session.identity.username == identity.username
}

/// The answer to a callback whose session was handed to the store: on
/// success a redirect to `success_url` that sets the session cookie; on
/// failure a server error that carries the store's message. Either way the
/// cookie of the login attempt is removed.
pub open spec fn is_callback_answer(
    response: CallbackResponse,
    saved: Result<(), AuthError>,
    session_id: Seq<char>,
    config: SessionConfig,
    state: Seq<char>,
    success_url: Seq<char>,
) -> bool {
    match saved {
        Ok(_) => {
            &&& response matches CallbackResponse::Redirect { location, cookies }
            &&& location@ == success_url
            &&& cookies@.len() == 2
            &&& is_session_cookie(cookies@[0], config, session_id)
            &&& is_removal_cookie(cookies@[1], spec_flow_cookie_name(state))
        },
        Err(error) => {
            &&& response matches CallbackResponse::ServerError { detail, cookies }
            &&& detail@ == "Failed to save session: "@ + error.spec_message()
            &&& consumes_flow_cookie(cookies@, state)
        },
    }
}

/// Answers a callback after its session was handed to the store.
pub fn callback_answer(
    saved: Result<(), AuthError>,
    session_id: String,
    config: &SessionConfig,
    state: &str,
    success_url: &str,
) -> (response: CallbackResponse)
    ensures
        is_callback_answer(response, saved, session_id@, *config, state@, success_url@),
{
    match saved {
        Ok(_) => {
            let mut cookies: Vec<Cookie> = Vec::new();
            cookies.push(session_cookie(config, session_id));
            cookies.push(removal_cookie(flow_cookie_name(state)));
            CallbackResponse::Redirect { location: String::from_str(success_url), cookies }
        },
        Err(error) => CallbackResponse::ServerError {
            detail: String::from_str("Failed to save session: ").concat(error.message().as_str()),
            cookies: consume_flow_cookie(state),
        },
    }
}

/// What a callback may answer to a login that finished at time `now` and
/// is to become a session under the id `id`. A time from which the
/// session's end cannot be written down gives a server error, and the store
/// is not asked. Any other time gives the session of
/// [`callback_session_at`], which the store is asked to save; the store's
/// answer decides what [`callback_answer`] makes of it.
pub open spec fn callback_at<St: SessionStore + ?Sized>(
    store: &St,
    config: SessionConfig,
    state: Seq<char>,
    success_url: Seq<char>,
    identity: Identity,
    token: OAuthToken,
    id: Seq<char>,
    now: i64,
    response: CallbackResponse,
) -> bool {
    if spec_in_range(now, config.max_age) {
        exists|session: Session, saved: Result<(), AuthError>|
            {
                &&& session.id@ == id
                &&& #[trigger] is_callback_session(session, identity, token, now, config.max_age)
                &&& #[trigger] store.save_admits(session, saved)
                &&& is_callback_answer(response, saved, id, config, state, success_url)
            }
    } else {
        &&& response matches CallbackResponse::ServerError { detail, cookies }
        &&& detail@ == "session expiry is out of range"@
        &&& consumes_flow_cookie(cookies@, state)
    }
}

/// What a callback may answer once the flow has finished the login with
/// `login`: a failed login is refused; a login that succeeded is answered as
/// [`callback_at`] tells for some random id and some reading that the clock
/// can give.
/// Whatever the answer, it removes the cookie of the login attempt: a state
/// is good for one callback.
pub open spec fn callback_admits<St: SessionStore + ?Sized>(
    store: &St,
    config: SessionConfig,
    state: Seq<char>,
    success_url: Seq<char>,
    login: Result<(Identity, OAuthToken), AuthError>,
    response: CallbackResponse,
) -> bool {
    match login {
        Err(error) => {
            &&& response matches CallbackResponse::Unauthorized { detail, cookies }
            &&& detail@ == "Authentication failed: "@ + error.spec_message()
            &&& consumes_flow_cookie(cookies@, state)
        },
        Ok((identity, token)) => exists|id: Seq<char>, now: i64|
            is_uuid_text(id) && spec_clock_reading(now) && #[trigger] callback_at(
                store,
                config,
                state,
                success_url,
                identity,
                token,
                id,
                now,
                response,
            ),
    }
}

/// The cookies that an answer sets.
pub open spec fn response_cookies(response: CallbackResponse) -> Seq<Cookie> {
    match response {
        CallbackResponse::Redirect { cookies, .. } => cookies@,
        CallbackResponse::Unauthorized { cookies, .. } => cookies@,
        CallbackResponse::ServerError { cookies, .. } => cookies@,
        CallbackResponse::Issued { cookies, .. } => cookies@,
    }
}

/// The answer to a callback whose login was to end in a signed token: the
/// token in a bearer response, or a server error with the signer's message.
/// Either way the cookie of the login attempt is removed.
pub open spec fn is_token_answer(
    response: CallbackResponse,
    issued: Result<String, AuthError>,
    expires_in_secs: u64,
    state: Seq<char>,
) -> bool {
    match issued {
        Ok(jwt) => {
            &&& response matches CallbackResponse::Issued { body, cookies }
            &&& body.access_token == jwt
            &&& body.token_type@ == "Bearer"@
            &&& body.expires_in == expires_in_secs
            &&& consumes_flow_cookie(cookies@, state)
        },
        Err(error) => {
            &&& response matches CallbackResponse::ServerError { detail, cookies }
            &&& detail@ == error.spec_message()
            &&& consumes_flow_cookie(cookies@, state)
        },
    }
}

/// Answers a callback after the token of the login was signed, or failed to
/// be.
pub fn token_callback_answer(issued: Result<String, AuthError>, expires_in_secs: u64, state: &str) -> (response:
    CallbackResponse)
    ensures
        is_token_answer(response, issued, expires_in_secs, state@),
{
    match issued {
        Ok(jwt) => CallbackResponse::Issued {
            body: token_response(jwt, expires_in_secs),
            cookies: consume_flow_cookie(state),
        },
        Err(error) => CallbackResponse::ServerError {
            detail: error.message(),
            cookies: consume_flow_cookie(state),
        },
    }
}

/// Handles the callback of a login with a server-side session.
///
/// `pkce_verifier` is the value of the cookie of the login attempt, named
/// after the state of the callback; without it the callback is refused. The
/// state of the callback is what the flow compares it with, the cookie's
/// name being the proof that this state was issued. A login that the flow
/// finishes becomes a session under a fresh random id, which is saved. Once
/// the flow has been asked, the answer removes the cookie of the login
/// attempt, whether the login succeeded or not.
pub fn handle_oauth_callback<F: ErasedOAuthFlow + ?Sized, St: SessionStore + ?Sized>(
    flow: &F,
    params: &OAuthCallbackParams,
    pkce_verifier: Option<&str>,
    store: &St,
    config: &SessionConfig,
    success_url: &str,
) -> (response: CallbackResponse)
    ensures
        pkce_verifier is None ==> (response matches CallbackResponse::Unauthorized {
            detail,
            cookies,
        } && detail@ == "CSRF validation failed or session expired"@ && cookies@.len() == 0),
        pkce_verifier is Some ==> exists|login: Result<(Identity, OAuthToken), AuthError>|
            #[trigger] flow.finalize_admits(
                params.code@,
                params.state@,
                params.state@,
                text_of(pkce_verifier),
                login,
            ) && callback_admits(store, *config, params.state@, success_url@, login, response),
        pkce_verifier is Some ==> response_cookies(response).len() > 0 && is_removal_cookie(
            response_cookies(response).last(),
            spec_flow_cookie_name(params.state@),
        ),
{
    let verifier = match callback_verifier(pkce_verifier) {
        Ok(verifier) => verifier,
        Err(response) => {
            return response;
        },
    };
    let login = flow.finalize_login(
        params.code.as_str(),
        params.state.as_str(),
        params.state.as_str(),
        Some(verifier),
    );
    let ghost seen = login;
    let response = match finished_login(login, params.state.as_str()) {
        Err(response) => response,
        Ok((identity, token)) => {
            let id = random_uuid();
            let now = utc_now_seconds();
            let ghost name = id@;
            let step = session_or_answer(
                identity,
                token,
                id,
                now,
                config.max_age,
                params.state.as_str(),
            );
            let response = match step {
                Ok(session) => {
                    let saved = store.save_session(&session);
                    let response = callback_answer(
                        saved,
                        session.id,
                        config,
                        params.state.as_str(),
                        success_url,
                    );
                    proof {
                        assert(is_callback_session(session, identity, token, now, config.max_age)
                            && store.save_admits(session, saved) && is_callback_answer(
                            response,
                            saved,
                            name,
                            *config,
                            params.state@,
                            success_url@,
                        ));
                    }
                    response
                },
                Err(response) => response,
            };
            proof {
                assert(callback_at(
                    store,
                    *config,
                    params.state@,
                    success_url@,
                    identity,
                    token,
                    name,
                    now,
                    response,
                ));
            }
            response
        },
    };
    proof {
        assert(flow.finalize_admits(
            params.code@,
            params.state@,
            params.state@,
            text_of(pkce_verifier),
            seen,
        ) && callback_admits(store, *config, params.state@, success_url@, seen, response));
    }
    response
}

/// Where a callback sends the user after the login: the address kept in the
/// cookie of the login attempt, or the root of the site without one.
pub fn success_url_or_default(kept: Option<&str>) -> (address: String)
    ensures
        address@ == match kept {
            Some(url) => url@,
            None => "/"@,
        },
{
    match kept {
        Some(url) => String::from_str(url),
        None => String::from_str("/"),
    }
}

/// What an answer says, its cookies aside.
pub enum Verdict {
    /// A redirect to the address.
    Redirect(Seq<char>),
    /// A refusal with the reason.
    Unauthorized(Seq<char>),
    /// A server error with the reason.
    ServerError(Seq<char>),
    /// A token.
    Issued(TokenResponse),
}

/// What `response` says, its cookies aside.
pub open spec fn verdict(response: CallbackResponse) -> Verdict {
    match response {
        CallbackResponse::Redirect { location, .. } => Verdict::Redirect(location@),
        CallbackResponse::Unauthorized { detail, .. } => Verdict::Unauthorized(detail@),
        CallbackResponse::ServerError { detail, .. } => Verdict::ServerError(detail@),
        CallbackResponse::Issued { body, .. } => Verdict::Issued(body),
    }
}

/// Adds to an answer, behind its cookies, the removal of the cookie that
/// kept the address to return to: with the callback answered, that cookie has
/// served.
pub fn forget_success_url(response: CallbackResponse, state: &str) -> (done: CallbackResponse)
    ensures
        verdict(done) == verdict(response),
        response_cookies(done).len() == response_cookies(response).len() + 1,
        response_cookies(done).drop_last() == response_cookies(response),
        is_removal_cookie(response_cookies(done).last(), spec_success_cookie_name(state@)),
{
    let cookie = removal_cookie(success_cookie_name(state));
    match response {
        CallbackResponse::Redirect { location, cookies } => {
            let mut cookies = cookies;
            let ghost before = cookies@;
            cookies.push(cookie);
            proof {
                assert(cookies@.drop_last() =~= before);
            }
            CallbackResponse::Redirect { location, cookies }
        },
        CallbackResponse::Unauthorized { detail, cookies } => {
            let mut cookies = cookies;
            let ghost before = cookies@;
            cookies.push(cookie);
            proof {
                assert(cookies@.drop_last() =~= before);
            }
            CallbackResponse::Unauthorized { detail, cookies }
        },
        CallbackResponse::ServerError { detail, cookies } => {
            let mut cookies = cookies;
            let ghost before = cookies@;
            cookies.push(cookie);
            proof {
                assert(cookies@.drop_last() =~= before);
            }
            CallbackResponse::ServerError { detail, cookies }
        },
        CallbackResponse::Issued { body, cookies } => {
            let mut cookies = cookies;
            let ghost before = cookies@;
            cookies.push(cookie);
            proof {
                assert(cookies@.drop_last() =~= before);
            }
            CallbackResponse::Issued { body, cookies }
        },
    }
}

/// The refusal of a resource server for a token that did not validate.
pub fn invalid_token(error: &ValidationError) -> (detail: String)
    ensures
        detail@ == "Invalid token: "@ + error.spec_message(),
{
    String::from_str("Invalid token: ").concat(error.message().as_str())
}

/// What a logout answers after the store was asked to delete the session,
/// if the request carried one: a redirect to `redirect_to` that empties the
/// session cookie, or a server error with the store's message.
pub open spec fn is_logout_answer(
    response: CallbackResponse,
    deleted: Option<Result<(), AuthError>>,
    config: SessionConfig,
    redirect_to: Seq<char>,
) -> bool {
    match deleted {
        Some(Err(error)) => {
            &&& response matches CallbackResponse::ServerError { detail, cookies }
            &&& detail@ == error.spec_message()
            &&& cookies@.len() == 0
        },
        _ => {
            &&& response matches CallbackResponse::Redirect { location, cookies }
            &&& location@ == redirect_to
            &&& cookies@.len() == 1
            &&& is_session_cookie(cookies@[0], config, Seq::<char>::empty())
        },
    }
}

/// Answers a logout.
pub fn logout_answer(
    deleted: Option<Result<(), AuthError>>,
    config: &SessionConfig,
    redirect_to: &str,
) -> (response: CallbackResponse)
    ensures
        is_logout_answer(response, deleted, *config, redirect_to@),
{
    match deleted {
        Some(Err(error)) => CallbackResponse::ServerError {
            detail: error.message(),
            cookies: Vec::new(),
        },
        _ => {
            let mut cookies: Vec<Cookie> = Vec::new();
            cookies.push(session_cookie(config, String::new()));
            CallbackResponse::Redirect { location: String::from_str(redirect_to), cookies }
        },
    }
}

/// Logs out: deletes the session named by the session cookie, if the request
/// carries one, and empties the cookie.
pub fn logout<St: SessionStore + ?Sized>(
    session_id: Option<&str>,
    store: &St,
    config: &SessionConfig,
    redirect_to: &str,
) -> (response: CallbackResponse)
    ensures
        match session_id {
            Some(id) => exists|deleted: Result<(), AuthError>| #[trigger]
                store.delete_admits(id@, deleted) && is_logout_answer(
                    response,
                    Some(deleted),
                    *config,
                    redirect_to@,
                ),
            None => is_logout_answer(response, None, *config, redirect_to@),
        },
{
    match session_id {
        Some(id) => {
            let deleted = store.delete_session(id);
            let response = logout_answer(Some(deleted), config, redirect_to);
            proof {
                assert(store.delete_admits(id@, deleted) && is_logout_answer(
                    response,
                    Some(deleted),
                    *config,
                    redirect_to@,
                ));
            }
            response
        },
        None => logout_answer(None, config, redirect_to),
    }
}

/// What a guarded route does with the answer of its guard.
#[derive(Debug)]
pub enum GuardDecision<I> {
    /// The request goes on as `I`.
    Allow(I),
    /// The request is refused for want of valid credentials.
    Unauthorized(String),
    /// The guard itself failed.
    Internal(String),
}

/// Decides what a guarded route does: an identity lets the request pass, no
/// identity refuses it as unauthorized, and an error of the chain is shown
/// as a failure of the server.
pub fn guard_decision<I>(answer: Result<Option<I>, AuthError>) -> (decision: GuardDecision<I>)
    ensures
        match answer {
            Ok(Some(identity)) => decision == GuardDecision::Allow(identity),
            Ok(None) => decision matches GuardDecision::Unauthorized(detail) && detail@
                == "Authentication failed"@,
            Err(error) => decision matches GuardDecision::Internal(detail) && detail@
                == error.spec_message(),
        },
{
    match answer {
        Ok(Some(identity)) => GuardDecision::Allow(identity),
        Ok(None) => GuardDecision::Unauthorized(String::from_str("Authentication failed")),
        Err(error) => GuardDecision::Internal(error.message()),
    }
}

/// Decides what a route that asks for a session does with a request.
///
/// `loaded` is what the store answered for the session id in the session
/// cookie, and `None` for a request without that cookie. A session that has
/// not ended lets the request pass. A request without cookie, an unknown
/// session and a session that has ended are refused as unauthorized. A
/// failure of the store is shown as a failure of the server.
pub fn session_decision(loaded: Option<Result<Option<Session>, AuthError>>, now: i64) -> (decision:
    GuardDecision<Session>)
    ensures
        match loaded {
            Some(Ok(Some(session))) => if session.expires_at > now {
                decision == GuardDecision::Allow(session)
            } else {
                decision matches GuardDecision::Unauthorized(detail) && detail@
                    == "Authentication failed"@
            },
            Some(Ok(None)) => decision matches GuardDecision::Unauthorized(detail) && detail@
                == "Authentication failed"@,
            None => decision matches GuardDecision::Unauthorized(detail) && detail@
                == "Authentication failed"@,
            Some(Err(error)) => decision matches GuardDecision::Internal(detail) && detail@
                == error.spec_message(),
        },
{
    match loaded {
        Some(Ok(Some(session))) => {
            if session.is_live(now) {
                GuardDecision::Allow(session)
            } else {
                GuardDecision::Unauthorized(String::from_str("Authentication failed"))
            }
        },
        Some(Ok(None)) => GuardDecision::Unauthorized(String::from_str("Authentication failed")),
        None => GuardDecision::Unauthorized(String::from_str("Authentication failed")),
        Some(Err(error)) => GuardDecision::Internal(error.message()),
    }
}

/// The bearer token of an `Authorization` header as a resource server reads
/// it: everything behind `Bearer `, untrimmed. A missing header and a header
/// of another form are refused with a message each.
pub fn bearer_credentials<'a>(authorization: Option<&'a str>) -> (token: Result<&'a str, String>)
    ensures
        match authorization {
            None => token matches Err(detail) && detail@ == "Missing Authorization header"@,
            Some(value) => if "Bearer "@.is_prefix_of(value@) {
                token matches Ok(t) && t@ == value@.skip("Bearer "@.len() as int)
            } else {
                token matches Err(detail) && detail@ == "Invalid Authorization header"@
            },
        },
{
    let value = match authorization {
        Some(value) => value,
        None => {
            return Err(String::from_str("Missing Authorization header"));
        },
    };
    let chars = chars_of(value);
    let prefix = chars_of("Bearer ");
    if !starts_with(&chars, &prefix) {
        return Err(String::from_str("Invalid Authorization header"));
    }
    let token = value.substring_char(prefix.len(), chars.len());
    proof {
        assert(token@ =~= value@.skip("Bearer "@.len() as int));
    }
    Ok(token)
}

} // verus!

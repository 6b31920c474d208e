use authkestra::callback::{
    authentication_failed, callback_answer, callback_session, callback_session_at,
    consume_flow_cookie, session_decision, GuardDecision,
    expiry_out_of_range, flow_cookie, flow_cookie_name, forget_success_url, invalid_token,
    success_url_or_default,
    handle_oauth_callback, initiate_oauth_login, login_redirect, logout, logout_answer,
    missing_flow_cookie, removal_cookie, session_cookie, split_scopes, stash_tokens,
    success_cookie_name, token_callback_answer, token_response, CallbackResponse, Cookie, OAuthCallbackParams,
    OAuthLoginParams, FLOW_COOKIE_SECONDS,
};
use authkestra::error::AuthError;
use authkestra::flow::{ErasedOAuthFlow, OAuth2Flow};
use authkestra::jwt::ValidationError;
use authkestra::provider::{OAuthProvider, SameSite};
use authkestra::service::Authkestra;
use authkestra::held::Shared;
use authkestra::session::{
    create_session, new_session, save_new_session, session_at, Session, SessionConfig,
    SessionStore, CLOCK_LIMIT, DEFAULT_SESSION_SECONDS,
};
use authkestra::state::{Attributes, Identity, OAuthToken};
use std::collections::HashMap;
use std::sync::{Arc, Mutex};
use std::time::{SystemTime, UNIX_EPOCH};

#[derive(Clone, Default)]
struct MemoryStore {
    sessions: Arc<Mutex<HashMap<String, Session>>>,
    broken: bool,
}

impl SessionStore for MemoryStore {
    fn load_session(&self, id: &str) -> Result<Option<Session>, AuthError> {
        Ok(self.sessions.lock().unwrap().get(id).cloned())
    }

    fn save_session(&self, session: &Session) -> Result<(), AuthError> {
        if self.broken {
            return Err(AuthError::Session("disk full".to_string()));
        }
        self.sessions.lock().unwrap().insert(session.id.clone(), session.clone());
        Ok(())
    }

    fn delete_session(&self, id: &str) -> Result<(), AuthError> {
        if self.broken {
            return Err(AuthError::Session("disk full".to_string()));
        }
        self.sessions.lock().unwrap().remove(id);
        Ok(())
    }
}

struct Provider;

impl OAuthProvider for Provider {
    fn provider_id(&self) -> &str {
        "idp"
    }

    fn get_authorization_url(&self, state: &str, scopes: &[&str], challenge: Option<&str>) -> String {
        format!("https://idp.example/a?s={}&sc={}&c={}", state, scopes.join("|"), challenge.unwrap_or("-"))
    }

    fn exchange_code_for_identity(
        &self,
        code: &str,
        verifier: Option<&str>,
    ) -> Result<(Identity, OAuthToken), AuthError> {
        if code == "good" && verifier == Some("verifier-1") {
            Ok((
                identity(),
                OAuthToken {
                    access_token: "at-1".to_string(),
                    token_type: "Bearer".to_string(),
                    expires_in: Some(3600),
                    refresh_token: Some("rt-1".to_string()),
                },
            ))
        } else {
            Err(AuthError::InvalidCode)
        }
    }
}

fn identity() -> Identity {
    let mut attributes = Attributes::new();
    attributes.insert("plan".to_string(), "pro".to_string());
    Identity {
        provider_id: "idp".to_string(),
        external_id: "42".to_string(),
        email: Some("a@example.com".to_string()),
        username: Some("alice".to_string()),
        attributes,
    }
}

fn now() -> i64 {
    SystemTime::now().duration_since(UNIX_EPOCH).unwrap().as_secs() as i64
}

fn is_uuid_v4(text: &str) -> bool {
    let bytes = text.as_bytes();
    bytes.len() == 36
        && bytes.iter().enumerate().all(|(i, b)| {
            if i == 8 || i == 13 || i == 18 || i == 23 {
                *b == b'-'
            } else {
                b.is_ascii_digit() || (b'a'..=b'f').contains(b)
            }
        })
        && bytes[14] == b'4'
}

fn assert_cookie(
    cookie: &Cookie,
    name: &str,
    value: &str,
    path: &str,
    http_only: bool,
    secure: bool,
    same_site: Option<SameSite>,
    max_age: Option<i64>,
) {
    assert_eq!(cookie.name, name);
    assert_eq!(cookie.value, value);
    assert_eq!(cookie.path, path);
    assert_eq!(cookie.http_only, http_only);
    assert_eq!(cookie.secure, secure);
    assert_eq!(cookie.same_site, same_site);
    assert_eq!(cookie.max_age, max_age);
}

#[test]
fn session_config_defaults_are_conservative() {
    let config = SessionConfig::default();
    assert_eq!(config.cookie_name, "authkestra_session");
    assert!(config.secure);
    assert!(config.http_only);
    assert_eq!(config.same_site, SameSite::Lax);
    assert_eq!(config.path, "/");
    assert_eq!(config.max_age, Some(86400));
    assert_eq!(DEFAULT_SESSION_SECONDS, 24 * 60 * 60);
}

#[test]
fn new_session_expires_after_the_configured_time() {
    let session = new_session("id-1".to_string(), identity(), 1_700_000_000, Some(60));
    assert_eq!(session.id, "id-1");
    assert_eq!(session.identity.external_id, "42");
    assert_eq!(session.expires_at, 1_700_000_060);
    let session = new_session("id-2".to_string(), identity(), 1_700_000_000, None);
    assert_eq!(session.expires_at, 1_700_086_400);
    let session = new_session("id-3".to_string(), identity(), -5, Some(-10));
    assert_eq!(session.expires_at, -15);
}

#[test]
fn clock_readings_are_bounded() {
    assert_eq!(CLOCK_LIMIT, (i32::MAX as i64 - 719_163) * 86_400 + 86_399);
    let store = MemoryStore::default();
    let session = create_session(&store, identity(), Some(0)).unwrap();
    assert!(0 <= session.expires_at && session.expires_at <= CLOCK_LIMIT);
    assert!(session_at("id".to_string(), identity(), CLOCK_LIMIT, None).is_ok());
    assert!(
        session_at("id".to_string(), identity(), CLOCK_LIMIT, Some(i64::MAX - CLOCK_LIMIT)).is_ok()
    );
    assert!(session_at("id".to_string(), identity(), 0, Some(i64::MAX)).is_ok());
}

#[test]
fn session_at_tells_when_the_expiry_is_out_of_range() {
    let session = session_at("id".to_string(), identity(), 1_700_000_000, Some(60)).unwrap();
    assert_eq!(session.id, "id");
    assert_eq!(session.identity.external_id, "42");
    assert_eq!(session.expires_at, 1_700_000_060);
    let session = session_at("id".to_string(), identity(), i64::MAX - 86400, None).unwrap();
    assert_eq!(session.expires_at, i64::MAX);
    let session = session_at("id".to_string(), identity(), i64::MIN, Some(0)).unwrap();
    assert_eq!(session.expires_at, i64::MIN);
    for (now, max_age) in [
        (i64::MAX - 86399, None),
        (i64::MAX, Some(1)),
        (1, Some(i64::MAX)),
        (i64::MIN, Some(-1)),
        (-2, Some(i64::MIN)),
    ] {
        assert_eq!(
            session_at("id".to_string(), identity(), now, max_age).err(),
            Some(AuthError::Session("session expiry is out of range".to_string()))
        );
    }
}

#[test]
fn callback_session_at_tells_when_the_expiry_is_out_of_range() {
    let token = || OAuthToken {
        access_token: "at".to_string(),
        token_type: "Bearer".to_string(),
        expires_in: Some(10),
        refresh_token: None,
    };
    let session =
        callback_session_at(identity(), token(), "sid".to_string(), 100, Some(50)).unwrap();
    assert_eq!(session.id, "sid");
    assert_eq!(session.expires_at, 150);
    assert_eq!(session.identity.attributes.get("expires_at"), Some(&"110".to_string()));
    assert_eq!(
        callback_session_at(identity(), token(), "sid".to_string(), i64::MAX, Some(1)).err(),
        Some(AuthError::Session("session expiry is out of range".to_string()))
    );
    assert!(callback_session_at(identity(), token(), "sid".to_string(), i64::MAX, Some(0)).is_ok());
}

#[test]
fn session_route_lets_live_sessions_pass() {
    let live = new_session("id".to_string(), identity(), 100, Some(50));
    match session_decision(Some(Ok(Some(live.clone()))), 149) {
        GuardDecision::Allow(session) => assert_eq!(session.id, "id"),
        other => panic!("unexpected decision: {:?}", other),
    }
    for loaded in [Some(Ok(Some(live))), Some(Ok(None)), None] {
        match session_decision(loaded, 150) {
            GuardDecision::Unauthorized(detail) => assert_eq!(detail, "Authentication failed"),
            other => panic!("unexpected decision: {:?}", other),
        }
    }
    match session_decision(Some(Err(AuthError::Session("down".to_string()))), 0) {
        GuardDecision::Internal(detail) => assert_eq!(detail, "Session error: down"),
        other => panic!("unexpected decision: {:?}", other),
    }
}

#[test]
fn providers_can_be_registered_held() {
    let service = Authkestra::builder()
        .provider_held("mine".to_string(), Shared::new(Arc::new(OAuth2Flow::new(Provider))))
        .build();
    assert!(service.providers.contains_key("mine"));
    assert!(!service.providers.contains_key("idp"));
    assert_eq!(service.providers.get("mine").unwrap().inner.provider_id(), "idp");
}

#[test]
fn cloned_service_shares_flows_and_store() {
    let store = MemoryStore::default();
    let service = Authkestra::builder()
        .provider(Arc::new(OAuth2Flow::new(Provider)))
        .session_store(Arc::new(store.clone()))
        .session_config(SessionConfig { max_age: Some(30), ..SessionConfig::default() })
        .build();
    let copy = service.clone();
    assert_eq!(copy.providers.len(), 1);
    assert!(Arc::ptr_eq(
        &copy.providers.get("idp").unwrap().inner,
        &service.providers.get("idp").unwrap().inner
    ));
    assert_eq!(copy.session_config.max_age, Some(30));
    assert_eq!(copy.session_config.cookie_name, "authkestra_session");
    let session = copy.create_session(identity()).unwrap();
    assert!(store.load_session(&session.id).unwrap().is_some());
    let config = SessionConfig { path: "/app".to_string(), secure: false, ..SessionConfig::default() };
    let same = config.clone();
    assert_eq!(same.path, "/app");
    assert!(!same.secure);
    assert_eq!(same.same_site, SameSite::Lax);
}

#[test]
fn create_session_saves_a_session_under_a_fresh_id() {
    let store = MemoryStore::default();
    let before = now();
    let session = create_session(&store, identity(), Some(600)).unwrap();
    let after = now();
    assert!(is_uuid_v4(&session.id), "{}", session.id);
    assert!(before + 600 <= session.expires_at && session.expires_at <= after + 600);
    let loaded = store.load_session(&session.id).unwrap().unwrap();
    assert_eq!(loaded.identity.external_id, "42");
    assert_eq!(loaded.expires_at, session.expires_at);
    let other = create_session(&store, identity(), None).unwrap();
    assert_ne!(other.id, session.id);
    assert!(before + 86400 <= other.expires_at && other.expires_at <= after + 86400);
}

#[test]
fn create_session_reports_a_failing_store_as_a_session_error() {
    let store = MemoryStore { broken: true, ..MemoryStore::default() };
    let outcome = create_session(&store, identity(), None);
    assert_eq!(outcome.err(), Some(AuthError::Session("Session error: disk full".to_string())));
    let session = new_session("id".to_string(), identity(), 0, None);
    let outcome = save_new_session(&store, session);
    assert_eq!(outcome.err(), Some(AuthError::Session("Session error: disk full".to_string())));
}

#[test]
fn create_session_refuses_an_expiry_out_of_range() {
    let store = MemoryStore::default();
    let outcome = create_session(&store, identity(), Some(i64::MAX));
    assert!(matches!(outcome, Err(AuthError::Session(_))));
    assert!(store.sessions.lock().unwrap().is_empty());
}

#[test]
fn service_creates_sessions_with_its_configuration() {
    let store = MemoryStore::default();
    let service = Authkestra::builder()
        .provider(Arc::new(OAuth2Flow::new(Provider)))
        .session_store(Arc::new(store.clone()))
        .session_config(SessionConfig { max_age: Some(30), ..SessionConfig::default() })
        .build();
    assert!(service.providers.contains_key("idp"));
    assert!(!service.providers.contains_key("github"));
    assert_eq!(service.providers.len(), 1);
    let before = now();
    let session = service.create_session(identity()).unwrap();
    assert!(session.expires_at >= before + 30 && session.expires_at <= now() + 30);
    assert!(store.load_session(&session.id).unwrap().is_some());
    assert_eq!(store.load_session("nonexistent").unwrap().map(|s| s.id), None);
}

#[test]
fn registering_a_provider_twice_keeps_one_flow() {
    let service = Authkestra::builder()
        .provider(Arc::new(OAuth2Flow::new(Provider)))
        .provider(Arc::new(OAuth2Flow::new(Provider)))
        .token_manager("manager")
        .build();
    assert_eq!(service.providers.len(), 1);
    assert_eq!(service.token_manager.0, "manager");
    let flow = service.providers.get("idp").unwrap();
    assert_eq!(flow.inner.provider_id(), "idp");
}

#[test]
fn cookie_names_follow_the_state() {
    assert_eq!(flow_cookie_name("abc"), "authkestra_flow_abc");
    assert_eq!(flow_cookie_name(""), "authkestra_flow_");
    assert_eq!(success_cookie_name("abc"), "authkestra_success_abc");
}

#[test]
fn cookies_of_a_login_attempt() {
    assert_eq!(FLOW_COOKIE_SECONDS, 15 * 60);
    let cookie = flow_cookie("n".to_string(), "v".to_string());
    assert_cookie(&cookie, "n", "v", "/", true, true, Some(SameSite::Lax), Some(900));
    let cookie = removal_cookie("n".to_string());
    assert_cookie(&cookie, "n", "", "/", false, true, None, Some(0));
}

#[test]
fn session_cookie_follows_the_configuration() {
    let config = SessionConfig {
        cookie_name: "sid".to_string(),
        secure: false,
        http_only: true,
        same_site: SameSite::Strict,
        path: "/app".to_string(),
        max_age: None,
    };
    let cookie = session_cookie(&config, "value".to_string());
    assert_cookie(&cookie, "sid", "value", "/app", true, false, Some(SameSite::Strict), None);
    let config = SessionConfig { same_site: SameSite::Unrestricted, ..SessionConfig::default() };
    let cookie = session_cookie(&config, "v".to_string());
    assert_cookie(
        &cookie,
        "authkestra_session",
        "v",
        "/",
        true,
        true,
        Some(SameSite::Unrestricted),
        Some(86400),
    );
}

#[test]
fn scopes_are_split_at_spaces_and_commas() {
    assert_eq!(split_scopes("read write"), ["read", "write"]);
    assert_eq!(split_scopes("read,write admin"), ["read", "write", "admin"]);
    assert_eq!(split_scopes(" , read ,, write, "), ["read", "write"]);
    assert_eq!(split_scopes("user:email"), ["user:email"]);
    assert!(split_scopes("").is_empty());
    assert!(split_scopes(" ,, ").is_empty());
    assert_eq!(split_scopes("a\tb"), ["a\tb"]);
}

#[test]
fn login_redirect_keeps_the_verifier_in_a_cookie() {
    let redirect = login_redirect("https://idp/a".to_string(), "s-1", "ver".to_string(), None);
    assert_eq!(redirect.location, "https://idp/a");
    assert_eq!(redirect.cookies.len(), 1);
    assert_cookie(
        &redirect.cookies[0],
        "authkestra_flow_s-1",
        "ver",
        "/",
        true,
        true,
        Some(SameSite::Lax),
        Some(900),
    );
    let redirect =
        login_redirect("https://idp/a".to_string(), "s-1", "ver".to_string(), Some("/home"));
    assert_eq!(redirect.cookies.len(), 2);
    assert_eq!(redirect.cookies[0].name, "authkestra_flow_s-1");
    assert_cookie(
        &redirect.cookies[1],
        "authkestra_success_s-1",
        "/home",
        "/",
        true,
        true,
        Some(SameSite::Lax),
        Some(900),
    );
}

#[test]
fn login_request_starts_a_login_at_the_flow() {
    let flow = OAuth2Flow::new(Provider);
    let params = OAuthLoginParams {
        scope: Some("read, write".to_string()),
        success_url: Some("/protected".to_string()),
    };
    let redirect = initiate_oauth_login(&flow, &params, "challenge-1", "verifier-1".to_string());
    let state = redirect.cookies[0].name.strip_prefix("authkestra_flow_").unwrap().to_string();
    assert!(is_uuid_v4(&state));
    assert_eq!(
        redirect.location,
        format!("https://idp.example/a?s={}&sc=read|write&c=challenge-1", state)
    );
    assert_eq!(redirect.cookies[0].value, "verifier-1");
    assert_eq!(redirect.cookies[1].name, format!("authkestra_success_{}", state));
    assert_eq!(redirect.cookies[1].value, "/protected");

    let params = OAuthLoginParams { scope: None, success_url: None };
    let erased: Box<dyn ErasedOAuthFlow> = Box::new(OAuth2Flow::new(Provider));
    let redirect = initiate_oauth_login(&*erased, &params, "c", "v".to_string());
    assert_eq!(redirect.cookies.len(), 1);
    assert!(redirect.location.ends_with("&sc=&c=c"));
}

#[test]
fn tokens_are_stashed_among_the_attributes() {
    let mut who = identity();
    let token = OAuthToken {
        access_token: "at-1".to_string(),
        token_type: "Bearer".to_string(),
        expires_in: Some(3600),
        refresh_token: Some("rt-1".to_string()),
    };
    stash_tokens(&mut who, token, 1_700_000_000);
    assert_eq!(who.attributes.get("access_token"), Some(&"at-1".to_string()));
    assert_eq!(who.attributes.get("expires_at"), Some(&"1700003600".to_string()));
    assert_eq!(who.attributes.get("refresh_token"), Some(&"rt-1".to_string()));
    assert_eq!(who.attributes.get("plan"), Some(&"pro".to_string()));
    assert_eq!(who.attributes.len(), 4);
    assert_eq!(who.external_id, "42");

    let mut who = identity();
    who.attributes.insert("access_token".to_string(), "stale".to_string());
    let token = OAuthToken {
        access_token: "at-2".to_string(),
        token_type: "Bearer".to_string(),
        expires_in: None,
        refresh_token: None,
    };
    stash_tokens(&mut who, token, 5);
    assert_eq!(who.attributes.get("access_token"), Some(&"at-2".to_string()));
    assert_eq!(who.attributes.get("expires_at"), None);
    assert_eq!(who.attributes.get("refresh_token"), None);
    assert_eq!(who.attributes.len(), 2);

    let mut who = identity();
    let token = OAuthToken {
        access_token: String::new(),
        token_type: "Bearer".to_string(),
        expires_in: Some(u64::MAX),
        refresh_token: None,
    };
    stash_tokens(&mut who, token, i64::MAX);
    assert_eq!(
        who.attributes.get("expires_at"),
        Some(&(i64::MAX as i128 + u64::MAX as i128).to_string())
    );
}

#[test]
fn callback_session_holds_the_tokens() {
    let token = OAuthToken {
        access_token: "at".to_string(),
        token_type: "Bearer".to_string(),
        expires_in: Some(10),
        refresh_token: None,
    };
    let session = callback_session(identity(), token, "sid-1".to_string(), 100, Some(50));
    assert_eq!(session.id, "sid-1");
    assert_eq!(session.expires_at, 150);
    assert_eq!(session.identity.attributes.get("access_token"), Some(&"at".to_string()));
    assert_eq!(session.identity.attributes.get("expires_at"), Some(&"110".to_string()));
    assert_eq!(session.identity.username.as_deref(), Some("alice"));
}

#[test]
fn callback_without_the_flow_cookie_is_refused() {
    let store = MemoryStore::default();
    let flow = OAuth2Flow::new(Provider);
    let params = OAuthCallbackParams { code: "good".to_string(), state: "s-1".to_string() };
    let response =
        handle_oauth_callback(&flow, &params, None, &store, &SessionConfig::default(), "/home");
    match response {
        CallbackResponse::Unauthorized { detail, cookies } => {
            assert_eq!(detail, "CSRF validation failed or session expired");
            assert!(cookies.is_empty());
        }
        other => panic!("unexpected response: {:?}", other),
    }
    assert!(store.sessions.lock().unwrap().is_empty());
    assert!(matches!(missing_flow_cookie(), CallbackResponse::Unauthorized { .. }));
}

#[test]
fn callback_with_a_refused_code_is_unauthorized() {
    let store = MemoryStore::default();
    let flow = OAuth2Flow::new(Provider);
    let params = OAuthCallbackParams { code: "bad".to_string(), state: "s-1".to_string() };
    let response = handle_oauth_callback(
        &flow,
        &params,
        Some("verifier-1"),
        &store,
        &SessionConfig::default(),
        "/home",
    );
    match response {
        CallbackResponse::Unauthorized { detail, cookies } => {
            assert_eq!(detail, "Authentication failed: Invalid code");
            assert_eq!(cookies.len(), 1);
            assert_cookie(&cookies[0], "authkestra_flow_s-1", "", "/", false, true, None, Some(0));
        }
        other => panic!("unexpected response: {:?}", other),
    }
    match authentication_failed(&AuthError::CsrfMismatch, "st") {
        CallbackResponse::Unauthorized { detail, cookies } => {
            assert_eq!(detail, "Authentication failed: CSRF state mismatch");
            assert_eq!(cookies[0].name, "authkestra_flow_st");
        }
        other => panic!("unexpected response: {:?}", other),
    }
}

#[test]
fn callback_creates_a_session_and_consumes_the_flow_cookie() {
    let store = MemoryStore::default();
    let flow = OAuth2Flow::new(Provider);
    let params = OAuthCallbackParams { code: "good".to_string(), state: "s-1".to_string() };
    let config = SessionConfig { max_age: Some(120), ..SessionConfig::default() };
    let before = now();
    let response =
        handle_oauth_callback(&flow, &params, Some("verifier-1"), &store, &config, "/home");
    let (location, cookies) = match response {
        CallbackResponse::Redirect { location, cookies } => (location, cookies),
        other => panic!("unexpected response: {:?}", other),
    };
    assert_eq!(location, "/home");
    assert_eq!(cookies.len(), 2);
    let id = cookies[0].value.clone();
    assert!(is_uuid_v4(&id));
    assert_cookie(&cookies[0], "authkestra_session", &id, "/", true, true, Some(SameSite::Lax), Some(120));
    assert_cookie(&cookies[1], "authkestra_flow_s-1", "", "/", false, true, None, Some(0));
    let session = store.load_session(&id).unwrap().unwrap();
    assert_eq!(session.identity.external_id, "42");
    assert!(session.expires_at >= before + 120 && session.expires_at <= now() + 120);
    assert_eq!(session.identity.attributes.get("access_token"), Some(&"at-1".to_string()));
    assert_eq!(session.identity.attributes.get("refresh_token"), Some(&"rt-1".to_string()));
    let expires_at: i64 = session.identity.attributes.get("expires_at").unwrap().parse().unwrap();
    assert!(expires_at >= before + 3600 && expires_at <= now() + 3600);
}

#[test]
fn callback_reports_a_failing_store_as_a_server_error() {
    let store = MemoryStore { broken: true, ..MemoryStore::default() };
    let flow = OAuth2Flow::new(Provider);
    let params = OAuthCallbackParams { code: "good".to_string(), state: "s-1".to_string() };
    let response = handle_oauth_callback(
        &flow,
        &params,
        Some("verifier-1"),
        &store,
        &SessionConfig::default(),
        "/home",
    );
    match response {
        CallbackResponse::ServerError { detail, cookies } => {
            assert_eq!(detail, "Failed to save session: Session error: disk full");
            assert_eq!(cookies.len(), 1);
            assert_cookie(&cookies[0], "authkestra_flow_s-1", "", "/", false, true, None, Some(0));
        }
        other => panic!("unexpected response: {:?}", other),
    }
}

#[test]
fn callback_with_an_expiry_out_of_range_is_a_server_error() {
    let store = MemoryStore::default();
    let flow = OAuth2Flow::new(Provider);
    let params = OAuthCallbackParams { code: "good".to_string(), state: "s-1".to_string() };
    let config = SessionConfig { max_age: Some(i64::MAX), ..SessionConfig::default() };
    let response =
        handle_oauth_callback(&flow, &params, Some("verifier-1"), &store, &config, "/home");
    match response {
        CallbackResponse::ServerError { detail, cookies } => {
            assert_eq!(detail, "session expiry is out of range");
            assert_eq!(cookies[0].name, "authkestra_flow_s-1");
        }
        other => panic!("unexpected response: {:?}", other),
    }
    assert!(store.sessions.lock().unwrap().is_empty());
    assert!(matches!(expiry_out_of_range("x"), CallbackResponse::ServerError { .. }));
    let cookies = consume_flow_cookie("abc");
    assert_eq!(cookies.len(), 1);
    assert_cookie(&cookies[0], "authkestra_flow_abc", "", "/", false, true, None, Some(0));
}

#[test]
fn callback_answer_for_each_result_of_the_store() {
    let config = SessionConfig::default();
    match callback_answer(Ok(()), "sid".to_string(), &config, "st", "/next") {
        CallbackResponse::Redirect { location, cookies } => {
            assert_eq!(location, "/next");
            assert_eq!(cookies[0].value, "sid");
            assert_eq!(cookies[1].name, "authkestra_flow_st");
        }
        other => panic!("unexpected response: {:?}", other),
    }
    match callback_answer(Err(AuthError::Network), "sid".to_string(), &config, "st", "/next") {
        CallbackResponse::ServerError { detail, cookies } => {
            assert_eq!(detail, "Failed to save session: Network error");
            assert_eq!(cookies[0].name, "authkestra_flow_st");
        }
        other => panic!("unexpected response: {:?}", other),
    }
}

#[test]
fn logout_deletes_the_session_and_empties_the_cookie() {
    let store = MemoryStore::default();
    let session = create_session(&store, identity(), None).unwrap();
    let config = SessionConfig::default();
    let response = logout(Some(&session.id), &store, &config, "/");
    match response {
        CallbackResponse::Redirect { location, cookies } => {
            assert_eq!(location, "/");
            assert_eq!(cookies.len(), 1);
            assert_cookie(
                &cookies[0],
                "authkestra_session",
                "",
                "/",
                true,
                true,
                Some(SameSite::Lax),
                Some(86400),
            );
        }
        other => panic!("unexpected response: {:?}", other),
    }
    assert!(store.load_session(&session.id).unwrap().is_none());
}

#[test]
fn logout_without_a_session_cookie_only_redirects() {
    let store = MemoryStore { broken: true, ..MemoryStore::default() };
    let response = logout(None, &store, &SessionConfig::default(), "/bye");
    assert!(matches!(response, CallbackResponse::Redirect { ref location, .. } if location == "/bye"));
}

#[test]
fn logout_reports_a_failing_store() {
    let store = MemoryStore { broken: true, ..MemoryStore::default() };
    match logout(Some("sid"), &store, &SessionConfig::default(), "/") {
        CallbackResponse::ServerError { detail, cookies } => {
            assert_eq!(detail, "Session error: disk full");
            assert!(cookies.is_empty());
        }
        other => panic!("unexpected response: {:?}", other),
    }
    let config = SessionConfig::default();
    assert!(matches!(logout_answer(Some(Ok(())), &config, "/"), CallbackResponse::Redirect { .. }));
}

#[test]
fn token_callback_hands_out_the_token_and_consumes_the_flow_cookie() {
    match token_callback_answer(Ok("a.b.c".to_string()), 600, "st") {
        CallbackResponse::Issued { body, cookies } => {
            assert_eq!(body.access_token, "a.b.c");
            assert_eq!(body.token_type, "Bearer");
            assert_eq!(body.expires_in, 600);
            assert_eq!(cookies.len(), 1);
            assert_cookie(&cookies[0], "authkestra_flow_st", "", "/", false, true, None, Some(0));
        }
        other => panic!("unexpected response: {:?}", other),
    }
    match token_callback_answer(Err(AuthError::Token("no key".to_string())), 600, "st") {
        CallbackResponse::ServerError { detail, cookies } => {
            assert_eq!(detail, "Token error: no key");
            assert_eq!(cookies[0].name, "authkestra_flow_st");
        }
        other => panic!("unexpected response: {:?}", other),
    }
}

#[test]
fn callback_returns_to_the_kept_address_or_the_root() {
    assert_eq!(success_url_or_default(Some("/protected")), "/protected");
    assert_eq!(success_url_or_default(Some("")), "");
    assert_eq!(success_url_or_default(None), "/");
}

#[test]
fn answered_callback_forgets_the_kept_address() {
    let config = SessionConfig::default();
    let answer = callback_answer(Ok(()), "sid".to_string(), &config, "st", "/next");
    match forget_success_url(answer, "st") {
        CallbackResponse::Redirect { location, cookies } => {
            assert_eq!(location, "/next");
            assert_eq!(cookies.len(), 3);
            assert_eq!(cookies[0].value, "sid");
            assert_eq!(cookies[1].name, "authkestra_flow_st");
            assert_cookie(&cookies[2], "authkestra_success_st", "", "/", false, true, None, Some(0));
        }
        other => panic!("unexpected response: {:?}", other),
    }
    match forget_success_url(missing_flow_cookie(), "st") {
        CallbackResponse::Unauthorized { detail, cookies } => {
            assert_eq!(detail, "CSRF validation failed or session expired");
            assert_eq!(cookies.len(), 1);
            assert_eq!(cookies[0].name, "authkestra_success_st");
        }
        other => panic!("unexpected response: {:?}", other),
    }
    match forget_success_url(expiry_out_of_range("st"), "st") {
        CallbackResponse::ServerError { cookies, .. } => assert_eq!(cookies.len(), 2),
        other => panic!("unexpected response: {:?}", other),
    }
    match forget_success_url(token_callback_answer(Ok("t".to_string()), 1, "st"), "st") {
        CallbackResponse::Issued { body, cookies } => {
            assert_eq!(body.access_token, "t");
            assert_eq!(cookies[1].name, "authkestra_success_st");
        }
        other => panic!("unexpected response: {:?}", other),
    }
}

#[test]
fn refusal_of_a_token_names_the_reason() {
    assert_eq!(invalid_token(&ValidationError::KeyNotFound), "Invalid token: Key not found in JWKS");
}

#[test]
fn session_is_live_until_it_expires() {
    let session = new_session("id".to_string(), identity(), 100, Some(50));
    assert!(session.is_live(100));
    assert!(session.is_live(149));
    assert!(!session.is_live(150));
    assert!(!session.is_live(151));
}

#[test]
fn token_response_is_a_bearer_token() {
    let body = token_response("a.b.c".to_string(), 3600);
    assert_eq!(body.access_token, "a.b.c");
    assert_eq!(body.token_type, "Bearer");
    assert_eq!(body.expires_in, 3600);
}

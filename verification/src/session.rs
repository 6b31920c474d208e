//! Server-side sessions: the record, its store and its cookie settings.

use vstd::prelude::*;
use vstd::string::StringExecFns;
use crate::error::AuthError;
use crate::flow::{is_uuid_text, random_uuid};
use crate::provider::SameSite;
use crate::state::Identity;

verus! {

/// A login that the server remembers.
#[derive(Debug, Clone)]
pub struct Session {
    /// The unguessable id that the client presents.
    pub id: String,
    /// Who is logged in.
    pub identity: Identity,
    /// When the session ends, in seconds since the epoch.
    pub expires_at: i64,
}

impl Session {
    /// Whether the session has not yet ended at time `now`.
    pub fn is_live(&self, now: i64) -> (live: bool)
        ensures
            live == (self.expires_at > now),
    {
        self.expires_at > now
    }
}

/// Where sessions are kept. Every operation may fail for reasons of the
/// store's own.
pub trait SessionStore: Send + Sync {
    /// The outcomes that loading the session `id` may have. Unless a store
    /// says more, any is possible; the same holds of saving and deleting.
    open spec fn load_admits(&self, id: Seq<char>, outcome: Result<Option<Session>, AuthError>)
        -> bool {
        true
    }

    /// The outcomes that saving `session` may have.
    open spec fn save_admits(&self, session: Session, outcome: Result<(), AuthError>) -> bool {
        true
    }

    /// The outcomes that deleting the session `id` may have.
    open spec fn delete_admits(&self, id: Seq<char>, outcome: Result<(), AuthError>) -> bool {
        true
    }

    /// Loads a session by its id.
    fn load_session(&self, id: &str) -> (outcome: Result<Option<Session>, AuthError>)
        ensures
            self.load_admits(id@, outcome),
    ;

    /// Saves a session, replacing one with the same id.
    fn save_session(&self, session: &Session) -> (outcome: Result<(), AuthError>)
        ensures
            self.save_admits(*session, outcome),
    ;

    /// Deletes a session by its id.
    fn delete_session(&self, id: &str) -> (outcome: Result<(), AuthError>)
        ensures
            self.delete_admits(id@, outcome),
    ;
}

/// The seconds that a session lasts when nothing else is configured: a day.
pub const DEFAULT_SESSION_SECONDS: i64 = 86400;

/// How the session cookie is set.
#[derive(Debug)]
pub struct SessionConfig {
    /// The name of the cookie.
    pub cookie_name: String,
    /// Whether the cookie is sent over HTTPS only.
    pub secure: bool,
    /// Whether scripts are kept from reading the cookie.
    pub http_only: bool,
    /// Whether the cookie travels with requests from other sites.
    pub same_site: SameSite,
    /// The path that the cookie is valid for.
    pub path: String,
    /// The seconds that the cookie, and the session, last.
    pub max_age: Option<i64>,
}

impl Clone for SessionConfig {
    fn clone(&self) -> (copy: SessionConfig)
        ensures
            copy == *self,
    {
        SessionConfig {
            cookie_name: self.cookie_name.clone(),
            secure: self.secure,
            http_only: self.http_only,
            same_site: self.same_site,
            path: self.path.clone(),
            max_age: self.max_age,
        }
    }
}

/// The settings of a session cookie when nothing else is configured: named
/// `authkestra_session`, valid for the whole site, hidden from scripts, sent
/// over HTTPS only and with top-level navigations from other sites, for a
/// day.
pub open spec fn is_default_config(config: SessionConfig) -> bool {
    &&& config.cookie_name@ == "authkestra_session"@
    &&& config.secure
    &&& config.http_only
    &&& config.same_site == SameSite::Lax
    &&& config.path@ == "/"@
    &&& config.max_age == Some(DEFAULT_SESSION_SECONDS)
}

impl Default for SessionConfig {
    fn default() -> (config: SessionConfig)
        ensures
            is_default_config(config),
    {
        SessionConfig {
            cookie_name: String::from_str("authkestra_session"),
            secure: true,
            http_only: true,
            same_site: SameSite::Lax,
            path: String::from_str("/"),
            max_age: Some(DEFAULT_SESSION_SECONDS),
        }
    }
}

/// The seconds that a session lasts under a configured maximum age.
pub open spec fn spec_session_seconds(max_age: Option<i64>) -> i64 {
    match max_age {
        Some(seconds) => seconds,
        None => DEFAULT_SESSION_SECONDS,
    }
}

/// The latest reading that the system clock can give: the last second of
/// the last day whose number, counted from the first day of year 1, fits in
/// 32 bits.
pub const CLOCK_LIMIT: i64 = 185_480_451_503_999;

/// Whether `now` is a reading that the system clock can give: a time at or
/// after the epoch and no later than [`CLOCK_LIMIT`].
pub open spec fn spec_clock_reading(now: i64) -> bool {
    0 <= now <= CLOCK_LIMIT
}

/// `chrono::Utc::now().timestamp()`: the seconds since the epoch on the
/// system clock. Which time it is is left open; `Utc::now` gives no time
/// before the epoch and none whose day it cannot count.
#[verifier::external_body]
pub(crate) fn utc_now_seconds() -> (now: i64)
    ensures
        spec_clock_reading(now),
{
    chrono::Utc::now().timestamp()
}

/// The session that begins at time `now` for `identity` under the id `id`.
pub fn new_session(id: String, identity: Identity, now: i64, max_age: Option<i64>) -> (session:
    Session)
    requires
        spec_in_range(now, max_age),
    ensures
        session.id == id,
        session.identity == identity,
        session.expires_at == now + spec_session_seconds(max_age),
{
    let seconds = match max_age {
        Some(seconds) => seconds,
        None => DEFAULT_SESSION_SECONDS,
    };
    Session { id, identity, expires_at: now + seconds }
}

/// Whether a session that begins at time `now` ends at a time that can be
/// written down.
pub open spec fn spec_in_range(now: i64, max_age: Option<i64>) -> bool {
    i64::MIN <= now + spec_session_seconds(max_age) <= i64::MAX
}

/// The error of a session that would end at a time that cannot be written
/// down.
pub open spec fn is_range_error(error: AuthError) -> bool {
    error matches AuthError::Session(detail) && detail@ == "session expiry is out of range"@
}

/// The session that begins at time `now` for `identity` under the id `id`,
/// if its end can be written down; the range error if it cannot.
pub fn session_at(id: String, identity: Identity, now: i64, max_age: Option<i64>) -> (outcome:
    Result<Session, AuthError>)
    ensures
        match outcome {
            Ok(session) => spec_in_range(now, max_age) && session.id == id && session.identity
                == identity && session.expires_at == now + spec_session_seconds(max_age),
            Err(error) => !spec_in_range(now, max_age) && is_range_error(error),
        },
{
    let seconds = match max_age {
        Some(seconds) => seconds,
        None => DEFAULT_SESSION_SECONDS,
    };
    match now.checked_add(seconds) {
        Some(_) => Ok(new_session(id, identity, now, max_age)),
        None => Err(AuthError::Session(String::from_str("session expiry is out of range"))),
    }
}

/// A session that lasts no longer than the rest of `i64` beyond
/// [`CLOCK_LIMIT`], and does not end before it begins, has an end that can
/// be written down whatever the clock reads. The default of a day is such a
/// time.
pub proof fn lemma_lifetime_in_range(now: i64, max_age: Option<i64>)
    requires
        spec_clock_reading(now),
        0 <= spec_session_seconds(max_age) <= i64::MAX - CLOCK_LIMIT,
    ensures
        spec_in_range(now, max_age),
        spec_in_range(now, None),
{
}

/// The error of a store that could not save a session.
pub open spec fn save_failure(cause: AuthError, error: AuthError) -> bool {
    error matches AuthError::Session(detail) && detail@ == cause.spec_message()
}

/// What becomes of a session that the store answered `saved` for: the
/// session itself, or a session error that carries the store's message.
pub open spec fn is_saved(
    session: Session,
    saved: Result<(), AuthError>,
    outcome: Result<Session, AuthError>,
) -> bool {
    match saved {
        Ok(_) => outcome == Ok::<Session, AuthError>(session),
        Err(cause) => outcome matches Err(error) && save_failure(cause, error),
    }
}

/// What creating a session under the id `id` at time `now` may result in.
/// A time from which the session's end cannot be written down gives the
/// range error, and the store is not asked. Any other time gives the session
/// of [`session_at`], which the store is asked to save: the store's answer
/// decides between the session and a session error with the store's message.
pub open spec fn created_at<St: SessionStore + ?Sized>(
    store: &St,
    id: Seq<char>,
    identity: Identity,
    now: i64,
    max_age: Option<i64>,
    outcome: Result<Session, AuthError>,
) -> bool {
    if spec_in_range(now, max_age) {
        exists|session: Session, saved: Result<(), AuthError>|
            {
                &&& session.id@ == id
                &&& session.identity == identity
                &&& session.expires_at == now + spec_session_seconds(max_age)
                &&& #[trigger] store.save_admits(session, saved)
                &&& #[trigger] is_saved(session, saved, outcome)
            }
    } else {
        outcome matches Err(error) && is_range_error(error)
    }
}

/// What creating a session may result in: what [`created_at`] tells for
/// some random id and some reading that the clock can give. With a
/// configured time that can be added to every such reading, as the default
/// of a day can, the range error never comes.
pub open spec fn create_admits<St: SessionStore + ?Sized>(
    store: &St,
    identity: Identity,
    max_age: Option<i64>,
    outcome: Result<Session, AuthError>,
) -> bool {
    exists|id: Seq<char>, now: i64|
        is_uuid_text(id) && spec_clock_reading(now) && #[trigger] created_at(
            store,
            id,
            identity,
            now,
            max_age,
            outcome,
        )
}

/// Saves `session` and hands it back; a failure of the store becomes a
/// session error with the store's message.
pub fn save_new_session<St: SessionStore + ?Sized>(store: &St, session: Session) -> (outcome:
    Result<Session, AuthError>)
    ensures
        exists|saved: Result<(), AuthError>|
            #[trigger] store.save_admits(session, saved) && is_saved(session, saved, outcome),
{
    let saved = store.save_session(&session);
    let ghost answer = saved;
    let outcome = match saved {
        Ok(_) => Ok(session),
        Err(cause) => Err(AuthError::Session(cause.message())),
    };
    proof {
        assert(store.save_admits(session, answer) && is_saved(session, answer, outcome));
    }
    outcome
}

/// Creates a session for `identity`: draws a fresh random id, reads the
/// clock, lets the session last for the configured time from then on, and
/// saves it.
pub fn create_session<St: SessionStore + ?Sized>(
    store: &St,
    identity: Identity,
    max_age: Option<i64>,
) -> (outcome: Result<Session, AuthError>)
    ensures
        create_admits(store, identity, max_age, outcome),
{
    let id = random_uuid();
    let now = utc_now_seconds();
    let ghost name = id@;
    let outcome = match session_at(id, identity, now, max_age) {
        Ok(session) => {
            let ghost built = session;
            let outcome = save_new_session(store, session);
            proof {
                let saved = choose|saved: Result<(), AuthError>|
                    #[trigger] store.save_admits(built, saved) && is_saved(built, saved, outcome);
                assert(store.save_admits(built, saved) && is_saved(built, saved, outcome));
            }
            outcome
        },
        Err(error) => Err(error),
    };
    proof {
        assert(created_at(store, name, identity, now, max_age, outcome));
    }
    outcome
}

} // verus!

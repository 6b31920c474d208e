//! Key sets and the cache that keeps the current one.
//!
//! The cache never talks to the network itself. A lookup is a short
//! conversation: [`JwksCache::get_key`] either answers from the cached set
//! or asks for a fetch; the caller fetches the key set from
//! [`JwksCache::jwks_uri`] and reports what came back to
//! [`JwksCache::key_after_fetch`], which answers or asks for one more fetch.

use vstd::prelude::*;
use vstd::string::StringExecFns;
use jsonwebtoken::DecodingKey;
use crate::jwt::{rsa_decoding_key, rsa_key_of, ValidationError};
use crate::text::str_equal;
use crate::utils::text_of;

verus! {

/// A copy of an optional string.
fn clone_text(text: &Option<String>) -> (copy: Option<String>)
    ensures
        copy == *text,
{
    match text {
        Some(s) => Some(s.clone()),
        None => None,
    }
}

/// One key of a key set.
#[derive(Debug)]
pub struct Jwk {
    /// The key's id.
    pub kid: Option<String>,
    /// The key's type, such as `RSA`.
    pub kty: String,
    /// The algorithm the key is meant for.
    pub alg: Option<String>,
    /// The RSA modulus, base64url.
    pub n: Option<String>,
    /// The RSA public exponent, base64url.
    pub e: Option<String>,
}

impl Clone for Jwk {
    fn clone(&self) -> (copy: Jwk)
        ensures
            copy == *self,
    {
        Jwk {
            kid: clone_text(&self.kid),
            kty: self.kty.clone(),
            alg: clone_text(&self.alg),
            n: clone_text(&self.n),
            e: clone_text(&self.e),
        }
    }
}

impl Jwk {
    /// Whether this key answers a lookup for `kid`: any key answers a lookup
    /// without id, and a lookup with an id wants that id.
    pub open spec fn spec_matches(self, kid: Option<Seq<char>>) -> bool {
        match kid {
            Some(id) => self.kid matches Some(own) && own@ == id,
            None => true,
        }
    }

    /// Whether this key answers a lookup for `kid`.
    pub fn matches(&self, kid: Option<&str>) -> (yes: bool)
        ensures
            yes == self.spec_matches(text_of(kid)),
    {
        match kid {
            Some(id) => match &self.kid {
                Some(own) => str_equal(own.as_str(), id),
                None => false,
            },
            None => true,
        }
    }

    /// Why this key cannot be turned into a verification key, if `error` is
    /// the reason: the key is not an RSA key, it lacks the modulus or the
    /// exponent, or the two are not base64url.
    pub open spec fn spec_unusable(self, error: ValidationError) -> bool {
        if self.kty@ != "RSA"@ {
            error matches ValidationError::Validation(detail) && detail@
                == "Only RSA keys are supported currently"@
        } else if self.n is None {
            error matches ValidationError::Validation(detail) && detail@
                == "Missing 'n' component in JWK"@
        } else if self.e is None {
            error matches ValidationError::Validation(detail) && detail@
                == "Missing 'e' component in JWK"@
        } else {
            error is Jwt && rsa_key_of(self.n->0@, self.e->0@) is None
        }
    }

    /// The verification key of this key: the key built from its modulus and
    /// its exponent, if it is an RSA key that has both and they are
    /// base64url.
    pub open spec fn spec_decoding_key(self) -> Option<DecodingKey> {
        if self.kty@ == "RSA"@ && self.n is Some && self.e is Some {
            rsa_key_of(self.n->0@, self.e->0@)
        } else {
            None
        }
    }

    /// Whether this key can be turned into a verification key.
    pub open spec fn spec_usable(self) -> bool {
        self.spec_decoding_key() is Some
    }

    /// The verification key of an RSA key.
    pub fn to_decoding_key(&self) -> (key: Result<DecodingKey, ValidationError>)
        ensures
            match key {
                Ok(built) => self.spec_decoding_key() == Some(built),
                Err(error) => self.spec_decoding_key() is None && self.spec_unusable(error),
            },
    {
        if !str_equal(self.kty.as_str(), "RSA") {
            return Err(
                ValidationError::Validation(
                    String::from_str("Only RSA keys are supported currently"),
                ),
            );
        }
        let n = match &self.n {
            Some(n) => n,
            None => {
                return Err(
                    ValidationError::Validation(String::from_str("Missing 'n' component in JWK")),
                );
            },
        };
        let e = match &self.e {
            Some(e) => e,
            None => {
                return Err(
                    ValidationError::Validation(String::from_str("Missing 'e' component in JWK")),
                );
            },
        };
        match rsa_decoding_key(n.as_str(), e.as_str()) {
            Ok(key) => Ok(key),
            Err(error) => Err(ValidationError::Jwt(error)),
        }
    }
}

/// The first key of `keys` that answers a lookup for `kid`.
pub open spec fn spec_find_key(keys: Seq<Jwk>, kid: Option<Seq<char>>) -> Option<Jwk>
    decreases keys.len(),
{
    if keys.len() == 0 {
        None
    } else if keys[0].spec_matches(kid) {
        Some(keys[0])
    } else {
        spec_find_key(keys.drop_first(), kid)
    }
}

/// A set of keys as a key endpoint publishes it.
#[derive(Debug)]
pub struct Jwks {
    /// The keys, in the order of the document.
    pub keys: Vec<Jwk>,
}

impl Clone for Jwks {
    fn clone(&self) -> (copy: Jwks)
        ensures
            copy.keys@ == self.keys@,
    {
        let mut keys: Vec<Jwk> = Vec::new();
        let mut i: usize = 0;
        while i < self.keys.len()
            invariant
                0 <= i <= self.keys@.len(),
                keys@ == self.keys@.take(i as int),
            decreases self.keys@.len() - i,
        {
            keys.push(self.keys[i].clone());
            proof {
                assert(keys@ =~= self.keys@.take(i + 1));
            }
            i = i + 1;
        }
        proof {
            assert(keys@ =~= self.keys@);
        }
        Jwks { keys }
    }
}

impl Jwks {
    /// The key with the given id; without an id, the first key of the set.
    pub fn find_key(&self, kid: Option<&str>) -> (key: Option<&Jwk>)
        ensures
            match key {
                Some(k) => spec_find_key(self.keys@, text_of(kid)) == Some(*k),
                None => spec_find_key(self.keys@, text_of(kid)) is None,
            },
    {
        let mut i: usize = 0;
        proof {
            assert(self.keys@.skip(0) =~= self.keys@);
        }
        while i < self.keys.len()
            invariant
                0 <= i <= self.keys@.len(),
                spec_find_key(self.keys@, text_of(kid)) == spec_find_key(
                    self.keys@.skip(i as int),
                    text_of(kid),
                ),
            decreases self.keys@.len() - i,
        {
            proof {
                let rest = self.keys@.skip(i as int);
                assert(rest[0] == self.keys@[i as int]);
                assert(rest.drop_first() =~= self.keys@.skip(i + 1));
            }
            if self.keys[i].matches(kid) {
                return Some(&self.keys[i]);
            }
            i = i + 1;
        }
        None
    }
}

/// Why a lookup asks for a fetch.
#[derive(Debug, Clone, Copy, PartialEq, Eq, Structural)]
pub enum FetchReason {
    /// Nothing is cached, or what is cached has outlived its time to live.
    Stale,
    /// The key set at hand lacks the key: the endpoint may have rotated its
    /// keys since.
    Rotation,
}

/// Where a key lookup stands.
#[derive(Debug)]
pub enum KeyStep {
    /// The lookup is over: the key, `None` when the set has no such key, or
    /// the failure of a fetch.
    Done(Result<Option<Jwk>, ValidationError>),
    /// The key set has to be fetched before the lookup can go on.
    Fetch(FetchReason),
}

/// The age at time `now` of what was fetched at time `fetched_at`.
pub open spec fn spec_age(fetched_at: u64, now: u64) -> int {
    if now >= fetched_at {
        now - fetched_at
    } else {
        0
    }
}

/// How a lookup for `kid` goes on after a fetch that was made for `reason`
/// returned `fetched`. A failed fetch fails the lookup. A set that holds the
/// key answers it. A set that lacks it is fetched once more if it replaced a
/// stale one, and answers `None` if it was itself fetched for the missing
/// key.
pub open spec fn spec_after_fetch(
    kid: Option<Seq<char>>,
    reason: FetchReason,
    fetched: Result<Jwks, ValidationError>,
) -> KeyStep {
    match fetched {
        Err(error) => KeyStep::Done(Err(error)),
        Ok(jwks) => match spec_find_key(jwks.keys@, kid) {
            Some(key) => KeyStep::Done(Ok(Some(key))),
            None => if reason == FetchReason::Stale {
                KeyStep::Fetch(FetchReason::Rotation)
            } else {
                KeyStep::Done(Ok(None))
            },
        },
    }
}

/// The key set of one endpoint together with the time it was fetched.
///
/// Times are readings of a clock that never runs backwards, in a unit of the
/// caller's choice; the time to live is in the same unit.
#[derive(Debug)]
pub struct JwksCache {
    jwks_uri: String,
    entry: Option<(Jwks, u64)>,
    ttl: u64,
}

impl JwksCache {
    /// The address of the key endpoint.
    pub closed spec fn spec_jwks_uri(&self) -> Seq<char> {
        self.jwks_uri@
    }

    /// The cached key set and the time it was fetched.
    pub closed spec fn spec_entry(&self) -> Option<(Jwks, u64)> {
        self.entry
    }

    /// How long a fetched key set is used before it is fetched again.
    pub closed spec fn spec_ttl(&self) -> u64 {
        self.ttl
    }

    /// The key set that serves lookups at time `now` without a fetch: the
    /// cached one while it is younger than the time to live.
    pub open spec fn spec_get_jwks(&self, now: u64) -> Option<Jwks> {
        match self.spec_entry() {
            Some((jwks, fetched_at)) => if spec_age(fetched_at, now) < self.spec_ttl() {
                Some(jwks)
            } else {
                None
            },
            None => None,
        }
    }

    /// The first step of a lookup for `kid` at time `now`.
    pub open spec fn spec_get_key(&self, kid: Option<Seq<char>>, now: u64) -> KeyStep {
        match self.spec_get_jwks(now) {
            Some(jwks) => match spec_find_key(jwks.keys@, kid) {
                Some(key) => KeyStep::Done(Ok(Some(key))),
                None => KeyStep::Fetch(FetchReason::Rotation),
            },
            None => KeyStep::Fetch(FetchReason::Stale),
        }
    }

    /// An empty cache for the endpoint `jwks_uri`.
    pub fn new(jwks_uri: String, refresh_interval: u64) -> (cache: JwksCache)
        ensures
            cache.spec_jwks_uri() == jwks_uri@,
            cache.spec_entry() is None,
            cache.spec_ttl() == refresh_interval,
    {
        JwksCache { jwks_uri, entry: None, ttl: refresh_interval }
    }

    /// How long a fetched key set is used before it is fetched again.
    pub fn ttl(&self) -> (ttl: u64)
        ensures
            ttl == self.spec_ttl(),
    {
        self.ttl
    }

    /// The address to fetch the key set from.
    pub fn jwks_uri(&self) -> (uri: &str)
        ensures
            uri@ == self.spec_jwks_uri(),
    {
        self.jwks_uri.as_str()
    }

    /// The cached key set, if it is still fresh at time `now`. On `None` the
    /// caller fetches the set and hands it to [`JwksCache::refresh`].
    pub fn get_jwks(&self, now: u64) -> (jwks: Option<&Jwks>)
        ensures
            match jwks {
                Some(set) => self.spec_get_jwks(now) == Some(*set),
                None => self.spec_get_jwks(now) is None,
            },
    {
        match &self.entry {
            Some((jwks, fetched_at)) => {
                let age: u64 = if now >= *fetched_at {
                    now - *fetched_at
                } else {
                    0
                };
                if age < self.ttl {
                    Some(jwks)
                } else {
                    None
                }
            },
            None => None,
        }
    }

    /// Replaces the cached key set by one fetched at time `now`.
    pub fn refresh(&mut self, fetched: Jwks, now: u64)
        ensures
            final(self).spec_entry() == Some((fetched, now)),
            final(self).spec_jwks_uri() == old(self).spec_jwks_uri(),
            final(self).spec_ttl() == old(self).spec_ttl(),
    {
        self.entry = Some((fetched, now));
    }

    /// Takes in what a fetch that ended at time `now` returned: a key set
    /// replaces the cached one and is handed back in copy; a failure leaves
    /// the cache as it was and is handed on.
    pub fn refresh_after_fetch(&mut self, fetched: Result<Jwks, ValidationError>, now: u64) -> (outcome:
        Result<Jwks, ValidationError>)
        ensures
            match fetched {
                Ok(jwks) => outcome matches Ok(copy) && copy.keys@ == jwks.keys@
                    && final(self).spec_entry() == Some((jwks, now)),
                Err(error) => outcome == Err::<Jwks, ValidationError>(error)
                    && final(self).spec_entry() == old(self).spec_entry(),
            },
            final(self).spec_jwks_uri() == old(self).spec_jwks_uri(),
            final(self).spec_ttl() == old(self).spec_ttl(),
    {
        match fetched {
            Ok(jwks) => {
                let copy = jwks.clone();
                self.refresh(jwks, now);
                Ok(copy)
            },
            Err(error) => Err(error),
        }
    }

    /// Starts a lookup for the key `kid` at time `now`.
    ///
    /// A fresh key set that holds the key answers at once. Otherwise the
    /// answer is a request to fetch, to be followed by
    /// [`JwksCache::key_after_fetch`].
    pub fn get_key(&self, kid: Option<&str>, now: u64) -> (step: KeyStep)
        ensures
            step == self.spec_get_key(text_of(kid), now),
    {
        match self.get_jwks(now) {
            Some(jwks) => match jwks.find_key(kid) {
                Some(key) => KeyStep::Done(Ok(Some(key.clone()))),
                None => KeyStep::Fetch(FetchReason::Rotation),
            },
            None => KeyStep::Fetch(FetchReason::Stale),
        }
    }

    /// Continues a lookup after the fetch it asked for.
    ///
    /// A key set that arrived replaces the cached one, with `now` as its
    /// time; a failed fetch leaves the cache as it was.
    pub fn key_after_fetch(
        &mut self,
        kid: Option<&str>,
        reason: FetchReason,
        fetched: Result<Jwks, ValidationError>,
        now: u64,
    ) -> (step: KeyStep)
        ensures
            step == spec_after_fetch(text_of(kid), reason, fetched),
            final(self).spec_entry() == match fetched {
                Ok(jwks) => Some((jwks, now)),
                Err(_) => old(self).spec_entry(),
            },
            final(self).spec_jwks_uri() == old(self).spec_jwks_uri(),
            final(self).spec_ttl() == old(self).spec_ttl(),
    {
        match fetched {
            Err(error) => KeyStep::Done(Err(error)),
            Ok(jwks) => {
                let step = match jwks.find_key(kid) {
                    Some(key) => KeyStep::Done(Ok(Some(key.clone()))),
                    None => match reason {
                        FetchReason::Stale => KeyStep::Fetch(FetchReason::Rotation),
                        FetchReason::Rotation => KeyStep::Done(Ok(None)),
                    },
                };
                self.refresh(jwks, now);
                step
            },
        }
    }
}

/// A lookup that finds its key in a fresh cache is answered without a fetch.
pub proof fn lemma_fresh_hit_needs_no_fetch(
    cache: JwksCache,
    kid: Option<Seq<char>>,
    now: u64,
    fetched_at: u64,
    jwks: Jwks,
    key: Jwk,
)
    requires
        cache.spec_entry() == Some((jwks, fetched_at)),
        spec_age(fetched_at, now) < cache.spec_ttl(),
        spec_find_key(jwks.keys@, kid) == Some(key),
    ensures
        cache.spec_get_key(kid, now) == KeyStep::Done(Ok(Some(key))),
{
}

/// A lookup whose key is missing from a fresh cache fetches exactly once:
/// the first step asks for a fetch, and the step after that fetch ends the
/// lookup, whatever came back. If the key is still missing the answer is
/// `None`.
pub proof fn lemma_missing_key_fetches_once(
    cache: JwksCache,
    kid: Option<Seq<char>>,
    now: u64,
    fetched_at: u64,
    jwks: Jwks,
    fetched: Result<Jwks, ValidationError>,
)
    requires
        cache.spec_entry() == Some((jwks, fetched_at)),
        spec_age(fetched_at, now) < cache.spec_ttl(),
        spec_find_key(jwks.keys@, kid) is None,
    ensures
        cache.spec_get_key(kid, now) == KeyStep::Fetch(FetchReason::Rotation),
        spec_after_fetch(kid, FetchReason::Rotation, fetched) is Done,
        fetched matches Ok(newer) && spec_find_key(newer.keys@, kid) is None ==> spec_after_fetch(
            kid,
            FetchReason::Rotation,
            fetched,
        ) == KeyStep::Done(Ok(None)),
{
}

/// A lookup on an empty or stale cache fetches once, and once more only if
/// the key set that arrived lacks the key; after that it is over.
pub proof fn lemma_stale_cache_fetches_at_most_twice(
    cache: JwksCache,
    kid: Option<Seq<char>>,
    now: u64,
    first: Result<Jwks, ValidationError>,
    second: Result<Jwks, ValidationError>,
)
    requires
        cache.spec_get_jwks(now) is None,
    ensures
        cache.spec_get_key(kid, now) == KeyStep::Fetch(FetchReason::Stale),
        spec_after_fetch(kid, FetchReason::Stale, first) is Fetch ==> (first matches Ok(jwks)
            && spec_find_key(jwks.keys@, kid) is None),
        spec_after_fetch(kid, FetchReason::Stale, first) is Fetch ==> spec_after_fetch(
            kid,
            FetchReason::Stale,
            first,
        ) == KeyStep::Fetch(FetchReason::Rotation),
        spec_after_fetch(kid, FetchReason::Rotation, second) is Done,
{
}

} // verus!

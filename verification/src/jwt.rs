//! Validation of signed tokens with the `jsonwebtoken` crate.

use vstd::prelude::*;
use vstd::string::StringExecFns;
use jsonwebtoken::errors::Error as JwtError;
use jsonwebtoken::{Algorithm, DecodingKey, Validation};
use serde_json::Value;
use std::marker::PhantomData;
use crate::error::AuthError;
use crate::jwks::{Jwk, JwksCache};

verus! {

/// `jsonwebtoken::Algorithm`: the signature algorithms.
#[verifier::external_type_specification]
pub struct ExAlgorithm(Algorithm);

/// `jsonwebtoken::DecodingKey`: a key that verifies signatures.
#[verifier::external_type_specification]
#[verifier::external_body]
pub struct ExDecodingKey(DecodingKey);

/// `jsonwebtoken::Validation`: what `decode` checks besides the signature.
#[verifier::external_type_specification]
#[verifier::external_body]
pub struct ExValidation(Validation);

/// `jsonwebtoken::errors::Error`: why decoding or verifying failed.
#[verifier::external_type_specification]
#[verifier::external_body]
pub struct ExJwtError(JwtError);

/// `serde_json::Value`: a JSON value, here the claims of a verified token.
#[verifier::external_type_specification]
#[verifier::external_body]
pub struct ExValue(Value);

/// What a token announces about itself before anything is verified.
#[derive(Debug)]
pub struct TokenHeader {
    /// The algorithm that the token claims to be signed with.
    pub alg: Algorithm,
    /// The id of the key that the token claims to be signed with.
    pub kid: Option<String>,
}

/// The settings of a `Validation` that this library reads or writes.
pub struct ValidationModel {
    /// The algorithms that a token may be signed with.
    pub algorithms: Seq<Algorithm>,
    /// The accepted issuers, if the issuer is checked.
    pub issuers: Option<Set<Seq<char>>>,
    /// The accepted audiences, if any are set.
    pub audiences: Option<Set<Seq<char>>>,
    /// Whether signatures are verified at all.
    pub verifies_signature: bool,
    /// The seconds by which the clock may be off.
    pub leeway: u64,
    /// The seconds before its expiry from which on a token is refused.
    pub reject_tokens_expiring_in_less_than: u64,
    /// Whether a token that has expired is refused.
    pub validates_exp: bool,
    /// Whether a token that is not yet valid is refused.
    pub validates_nbf: bool,
}

impl ValidationModel {
    /// The settings under which this library validates: signatures are
    /// verified, the clock may be off by a minute, and a token is good until
    /// it expires.
    pub open spec fn spec_usual(self) -> bool {
        self.verifies_signature && self.leeway == 60 && self.reject_tokens_expiring_in_less_than
            == 0
    }

    /// The usual settings, and a token is refused both after it has expired
    /// and before it becomes valid.
    pub open spec fn spec_strict(self) -> bool {
        self.spec_usual() && self.validates_exp && self.validates_nbf
    }
}

/// The algorithm and key id in the header of `token` as
/// `jsonwebtoken::decode_header` reads it; `None` where it fails.
pub uninterp spec fn jwt_header_of(token: Seq<char>) -> Option<(Algorithm, Option<Seq<char>>)>;

/// The key that `DecodingKey::from_rsa_components` builds from a modulus
/// and an exponent, both base64url without padding; `None` where it fails.
pub uninterp spec fn rsa_key_of(modulus: Seq<char>, exponent: Seq<char>) -> Option<DecodingKey>;

/// The claims that `jsonwebtoken::decode` reads out of `token`: the JSON
/// value that the second of its three parts holds in base64url. `None` for a
/// token of another shape or with a second part that holds no JSON.
pub uninterp spec fn jwt_claims_of(token: Seq<char>) -> Option<Value>;

/// Whether `jsonwebtoken::crypto::verify` takes the third part of `token`
/// for the signature of its first two parts under `key` and the algorithm
/// that the token's header names.
pub uninterp spec fn jwt_signed_by(token: Seq<char>, key: DecodingKey) -> bool;

/// The settings held by a `Validation`.
pub uninterp spec fn validation_model(validation: Validation) -> ValidationModel;

/// The text that `Display` gives for a `jsonwebtoken` error.
pub uninterp spec fn jwt_error_text(error: JwtError) -> Seq<char>;

/// `jsonwebtoken::decode_header`: reads algorithm and key id from the first
/// part of the token without verifying anything. A function of the token.
#[verifier::external_body]
pub(crate) fn decode_token_header(token: &str) -> (header: Result<TokenHeader, JwtError>)
    ensures
        match header {
            Ok(h) => jwt_header_of(token@) == Some(
                (
                    h.alg,
                    match h.kid {
                        Some(kid) => Some(kid@),
                        None => None,
                    },
                ),
            ),
            Err(_) => jwt_header_of(token@) is None,
        },
{
    let header = jsonwebtoken::decode_header(token)?;
    Ok(TokenHeader { alg: header.alg, kid: header.kid })
}

/// `DecodingKey::from_rsa_components`: an RSA key from modulus and exponent,
/// both base64url without padding; an error when either does not decode.
#[verifier::external_body]
pub(crate) fn rsa_decoding_key(modulus: &str, exponent: &str) -> (key: Result<
    DecodingKey,
    JwtError,
>)
    ensures
        match key {
            Ok(built) => rsa_key_of(modulus@, exponent@) == Some(built),
            Err(_) => rsa_key_of(modulus@, exponent@) is None,
        },
{
    DecodingKey::from_rsa_components(modulus, exponent)
}

/// `Validation::new`: accepts the one algorithm, verifies signatures, has
/// neither issuers nor audiences set, allows the clock a minute, refuses no
/// token ahead of its expiry, and checks the expiry but not the time from
/// which a token is valid.
#[verifier::external_body]
pub(crate) fn validation_new(algorithm: Algorithm) -> (validation: Validation)
    ensures
        validation_model(validation) == (ValidationModel {
            algorithms: seq![algorithm],
            issuers: None,
            audiences: None,
            verifies_signature: true,
            leeway: 60,
            reject_tokens_expiring_in_less_than: 0,
            validates_exp: true,
            validates_nbf: false,
        }),
{
    Validation::new(algorithm)
}

/// Assigns the public field `algorithms` of a `Validation`.
#[verifier::external_body]
pub(crate) fn validation_set_algorithms(validation: &mut Validation, algorithms: Vec<Algorithm>)
    ensures
        validation_model(*final(validation)) == (ValidationModel {
            algorithms: algorithms@,
            ..validation_model(*old(validation))
        }),
{
    validation.algorithms = algorithms;
}

/// Assigns the public field `validate_nbf` of a `Validation`: whether a
/// token is refused before the time from which it is valid.
#[verifier::external_body]
pub(crate) fn validation_set_validate_nbf(validation: &mut Validation, on: bool)
    ensures
        validation_model(*final(validation)) == (ValidationModel {
            validates_nbf: on,
            ..validation_model(*old(validation))
        }),
{
    validation.validate_nbf = on;
}

/// `Validation::set_issuer` with one issuer: the set of accepted issuers
/// becomes that one.
#[verifier::external_body]
pub(crate) fn validation_set_issuer(validation: &mut Validation, issuer: &str)
    ensures
        validation_model(*final(validation)) == (ValidationModel {
            issuers: Some(set![issuer@]),
            ..validation_model(*old(validation))
        }),
{
    validation.set_issuer(&[issuer]);
}

/// `Validation::set_audience` with one audience: the set of accepted
/// audiences becomes that one.
#[verifier::external_body]
pub(crate) fn validation_set_audience(validation: &mut Validation, audience: &str)
    ensures
        validation_model(*final(validation)) == (ValidationModel {
            audiences: Some(set![audience@]),
            ..validation_model(*old(validation))
        }),
{
    validation.set_audience(&[audience]);
}

/// `jsonwebtoken::decode` into a JSON value: verifies the signature with
/// `key`, checks the claims against `validation` and the clock, and returns
/// the claims. Whether it succeeds depends on the time. When it does, the
/// token's header is readable and names an algorithm that `validation`
/// accepts, the signature holds under `key`, and what comes back are the
/// claims of the token. The settings asked for are those under which its
/// arithmetic on the clock stays in range and signatures are verified.
#[verifier::external_body]
pub(crate) fn decode_claims(token: &str, key: &DecodingKey, validation: &Validation) -> (claims:
    Result<Value, JwtError>)
    requires
        validation_model(*validation).spec_usual(),
    ensures
        claims matches Ok(found) ==> {
            &&& jwt_header_of(token@) matches Some(header) && validation_model(
                *validation,
            ).algorithms.contains(header.0)
            &&& jwt_signed_by(token@, *key)
            &&& jwt_claims_of(token@) == Some(found)
        },
{
    jsonwebtoken::decode::<Value>(token, key, validation).map(|data| data.claims)
}

/// `to_string` of a `jsonwebtoken` error.
#[verifier::external_body]
pub(crate) fn jwt_error_message(error: &JwtError) -> (text: String)
    ensures
        text@ == jwt_error_text(*error),
{
    error.to_string()
}

/// Why a token could not be validated.
#[derive(Debug)]
pub enum ValidationError {
    /// The key set could not be fetched.
    Http(String),
    /// The token was refused: malformed, badly signed, expired, or signed
    /// with an algorithm that is not allowed.
    Jwt(JwtError),
    /// The key set that was fetched is not the expected JSON document.
    Serialization(String),
    /// The token is not acceptable for a reason outside the signature check.
    InvalidToken(String),
    /// No key of the key set matches the token, even after a refresh.
    KeyNotFound,
    /// A PASETO token could not be validated.
    Paseto(String),
    /// Provider discovery failed.
    Discovery(AuthError),
    /// A key or a setting cannot be used.
    Validation(String),
}

impl ValidationError {
    /// The text shown for this error.
    pub open spec fn spec_message(self) -> Seq<char> {
        match self {
            ValidationError::Http(detail) => "HTTP error: "@ + detail@,
            ValidationError::Jwt(error) => "JWT error: "@ + jwt_error_text(error),
            ValidationError::Serialization(detail) => "Serialization error: "@ + detail@,
            ValidationError::InvalidToken(detail) => "Invalid token: "@ + detail@,
            ValidationError::KeyNotFound => "Key not found in JWKS"@,
            ValidationError::Paseto(detail) => "PASETO error: "@ + detail@,
            ValidationError::Discovery(error) => "Discovery error: "@ + error.spec_message(),
            ValidationError::Validation(detail) => "Validation error: "@ + detail@,
        }
    }

    /// Renders the error as a line of text.
    pub fn message(&self) -> (text: String)
        ensures
            text@ == self.spec_message(),
    {
        match self {
            ValidationError::Http(detail) => String::from_str("HTTP error: ").concat(
                detail.as_str(),
            ),
            ValidationError::Jwt(error) => String::from_str("JWT error: ").concat(
                jwt_error_message(error).as_str(),
            ),
            ValidationError::Serialization(detail) => String::from_str(
                "Serialization error: ",
            ).concat(detail.as_str()),
            ValidationError::InvalidToken(detail) => String::from_str("Invalid token: ").concat(
                detail.as_str(),
            ),
            ValidationError::KeyNotFound => String::from_str("Key not found in JWKS"),
            ValidationError::Paseto(detail) => String::from_str("PASETO error: ").concat(
                detail.as_str(),
            ),
            ValidationError::Discovery(error) => String::from_str("Discovery error: ").concat(
                error.message().as_str(),
            ),
            ValidationError::Validation(detail) => String::from_str("Validation error: ").concat(
                detail.as_str(),
            ),
        }
    }
}

/// The registered claims of a token.
#[derive(Debug, Clone)]
pub struct Claims {
    /// Who issued the token.
    pub iss: Option<String>,
    /// Whom the token is about.
    pub sub: Option<String>,
    /// Whom the token is meant for.
    pub aud: Option<String>,
    /// When the token expires, in seconds since the epoch.
    pub exp: Option<usize>,
    /// Before when the token is not valid.
    pub nbf: Option<usize>,
    /// When the token was issued.
    pub iat: Option<usize>,
    /// The token's own id.
    pub jti: Option<String>,
}

/// The view of an optional string.
pub open spec fn opt_text(text: Option<String>) -> Option<Seq<char>> {
    match text {
        Some(s) => Some(s@),
        None => None,
    }
}

/// The one-element set of an optional string.
pub open spec fn opt_single(text: Option<String>) -> Option<Set<Seq<char>>> {
    match text {
        Some(s) => Some(set![s@]),
        None => None,
    }
}

/// How tokens are validated: where the keys come from and what a token has
/// to say.
#[derive(Debug)]
pub struct ValidationConfig {
    /// The address of the key endpoint.
    pub jwks_url: String,
    /// The seconds for which a fetched key set is used.
    pub refresh_interval: u64,
    /// The issuer that tokens have to name, if one is demanded.
    pub issuer: Option<String>,
    /// The audience that tokens have to name, if one is demanded.
    pub audience: Option<String>,
    /// The algorithms that tokens may be signed with; never empty.
    pub algorithms: Vec<Algorithm>,
}

impl ValidationConfig {
    /// A builder with nothing set.
    pub fn builder() -> (builder: ValidationConfigBuilder)
        ensures
            builder.jwks_url is None,
            builder.refresh_interval is None,
            builder.issuer is None,
            builder.audience is None,
            builder.algorithms@.len() == 0,
    {
        ValidationConfigBuilder {
            jwks_url: None,
            refresh_interval: None,
            issuer: None,
            audience: None,
            algorithms: Vec::new(),
        }
    }
}

/// Collects the settings of a [`ValidationConfig`].
#[derive(Debug)]
pub struct ValidationConfigBuilder {
    /// The address of the key endpoint.
    pub jwks_url: Option<String>,
    /// The seconds for which a fetched key set is used.
    pub refresh_interval: Option<u64>,
    /// The issuer to demand.
    pub issuer: Option<String>,
    /// The audience to demand.
    pub audience: Option<String>,
    /// The algorithms to allow.
    pub algorithms: Vec<Algorithm>,
}

/// The seconds for which a key set is used when nothing else is configured.
pub const DEFAULT_REFRESH_INTERVAL: u64 = 3600;

impl ValidationConfigBuilder {
    /// Sets the address of the key endpoint.
    pub fn jwks_url(self, jwks_url: &str) -> (builder: Self)
        ensures
            opt_text(builder.jwks_url) == Some(jwks_url@),
            builder.refresh_interval == self.refresh_interval,
            builder.issuer == self.issuer,
            builder.audience == self.audience,
            builder.algorithms == self.algorithms,
    {
        ValidationConfigBuilder { jwks_url: Some(String::from_str(jwks_url)), ..self }
    }

    /// Sets the seconds for which a fetched key set is used.
    pub fn refresh_interval(self, interval: u64) -> (builder: Self)
        ensures
            builder.refresh_interval == Some(interval),
            builder.jwks_url == self.jwks_url,
            builder.issuer == self.issuer,
            builder.audience == self.audience,
            builder.algorithms == self.algorithms,
    {
        ValidationConfigBuilder { refresh_interval: Some(interval), ..self }
    }

    /// Demands an issuer.
    pub fn issuer(self, issuer: &str) -> (builder: Self)
        ensures
            opt_text(builder.issuer) == Some(issuer@),
            builder.jwks_url == self.jwks_url,
            builder.refresh_interval == self.refresh_interval,
            builder.audience == self.audience,
            builder.algorithms == self.algorithms,
    {
        ValidationConfigBuilder { issuer: Some(String::from_str(issuer)), ..self }
    }

    /// Demands an audience.
    pub fn audience(self, audience: &str) -> (builder: Self)
        ensures
            opt_text(builder.audience) == Some(audience@),
            builder.jwks_url == self.jwks_url,
            builder.refresh_interval == self.refresh_interval,
            builder.issuer == self.issuer,
            builder.algorithms == self.algorithms,
    {
        ValidationConfigBuilder { audience: Some(String::from_str(audience)), ..self }
    }

    /// Sets the algorithms that tokens may be signed with.
    pub fn algorithms(self, algorithms: Vec<Algorithm>) -> (builder: Self)
        ensures
            builder.algorithms == algorithms,
            builder.jwks_url == self.jwks_url,
            builder.refresh_interval == self.refresh_interval,
            builder.issuer == self.issuer,
            builder.audience == self.audience,
    {
        ValidationConfigBuilder { algorithms, ..self }
    }

    /// Finishes the configuration. A key set is refreshed hourly unless an
    /// interval was set, and `RS256` is the one allowed algorithm unless
    /// algorithms were set.
    pub fn build(self) -> (config: ValidationConfig)
        requires
            self.jwks_url is Some,
        ensures
            config.jwks_url == self.jwks_url->0,
            config.refresh_interval == match self.refresh_interval {
                Some(interval) => interval,
                None => DEFAULT_REFRESH_INTERVAL,
            },
            config.issuer == self.issuer,
            config.audience == self.audience,
            config.algorithms@ == if self.algorithms@.len() == 0 {
                seq![Algorithm::RS256]
            } else {
                self.algorithms@
            },
    {
        let jwks_url = match self.jwks_url {
            Some(url) => url,
            None => String::new(),
        };
        let refresh_interval = match self.refresh_interval {
            Some(interval) => interval,
            None => DEFAULT_REFRESH_INTERVAL,
        };
        let algorithms = if self.algorithms.len() == 0 {
            let mut only: Vec<Algorithm> = Vec::new();
            only.push(Algorithm::RS256);
            only
        } else {
            self.algorithms
        };
        ValidationConfig {
            jwks_url,
            refresh_interval,
            issuer: self.issuer,
            audience: self.audience,
            algorithms,
        }
    }
}

/// What a token has to say to be accepted, in the form the decoder takes.
/// Signatures are always verified, and a token is refused both after it has
/// expired and before it becomes valid.
pub struct JwtValidation {
    validation: Validation,
}

impl JwtValidation {
    #[verifier::type_invariant]
    spec fn strict(self) -> bool {
        validation_model(self.validation).spec_strict()
    }

    /// The settings of this validation.
    pub closed spec fn model(&self) -> ValidationModel {
        validation_model(self.validation)
    }

    /// A validation that accepts the given algorithms and demands the given
    /// issuer and audience, if any.
    pub fn new(algorithms: Vec<Algorithm>, issuer: &Option<String>, audience: &Option<String>) -> (validation:
        Self)
        requires
            algorithms@.len() > 0,
        ensures
            validation.model() == (ValidationModel {
                algorithms: algorithms@,
                issuers: opt_single(*issuer),
                audiences: opt_single(*audience),
                verifies_signature: true,
                leeway: 60,
                reject_tokens_expiring_in_less_than: 0,
                validates_exp: true,
                validates_nbf: true,
            }),
    {
        let mut validation = validation_new(algorithms[0]);
        validation_set_algorithms(&mut validation, algorithms);
        validation_set_validate_nbf(&mut validation, true);
        match issuer {
            Some(issuer) => {
                validation_set_issuer(&mut validation, issuer.as_str());
            },
            None => {},
        }
        match audience {
            Some(audience) => {
                validation_set_audience(&mut validation, audience.as_str());
            },
            None => {},
        }
        JwtValidation { validation }
    }

    /// The settings as the decoder holds them.
    pub fn as_validation(&self) -> (validation: &Validation)
        ensures
            validation_model(*validation) == self.model(),
            self.model().spec_strict(),
    {
        proof {
            use_type_invariant(self);
        }
        &self.validation
    }
}

/// The key cache and the validation settings of a token strategy.
///
/// Looking a key up may need the network, so the strategy is run by its
/// owner: [`token_key_id`] names the key, the cache finds it,
/// [`validate_jwt_generic`] checks the token and [`jwt_outcome`] turns the
/// result into a strategy's answer.
pub struct JwtStrategy<I> {
    cache: JwksCache,
    validation: JwtValidation,
    _marker: PhantomData<I>,
}

impl<I> JwtStrategy<I> {
    /// The key cache.
    pub closed spec fn spec_cache(&self) -> JwksCache {
        self.cache
    }

    /// The validation settings.
    pub closed spec fn spec_validation(&self) -> JwtValidation {
        self.validation
    }

    /// A strategy with an empty cache for the configured endpoint and a
    /// validation that accepts the configured algorithms and demands the
    /// configured issuer and audience.
    pub fn new(config: ValidationConfig) -> (strategy: Self)
        requires
            config.algorithms@.len() > 0,
        ensures
            strategy.spec_cache().spec_jwks_uri() == config.jwks_url@,
            strategy.spec_cache().spec_entry() is None,
            strategy.spec_cache().spec_ttl() == config.refresh_interval,
            strategy.spec_validation().model() == (ValidationModel {
                algorithms: config.algorithms@,
                issuers: opt_single(config.issuer),
                audiences: opt_single(config.audience),
                verifies_signature: true,
                leeway: 60,
                reject_tokens_expiring_in_less_than: 0,
                validates_exp: true,
                validates_nbf: true,
            }),
    {
        let validation = JwtValidation::new(config.algorithms, &config.issuer, &config.audience);
        let cache = JwksCache::new(config.jwks_url, config.refresh_interval);
        JwtStrategy { cache, validation, _marker: PhantomData }
    }

    /// The key cache.
    pub fn cache(&self) -> (cache: &JwksCache)
        ensures
            *cache == self.spec_cache(),
    {
        &self.cache
    }

    /// The validation settings.
    pub fn validation(&self) -> (validation: &JwtValidation)
        ensures
            *validation == self.spec_validation(),
    {
        &self.validation
    }

    /// Takes the strategy apart into its cache and its validation settings.
    pub fn into_parts(self) -> (parts: (JwksCache, JwtValidation))
        ensures
            parts.0 == self.spec_cache(),
            parts.1 == self.spec_validation(),
    {
        (self.cache, self.validation)
    }
}

/// The id of the key that `token` names in its header.
///
/// A token whose header cannot be read is refused with the decoder's error.
pub fn token_key_id(token: &str) -> (kid: Result<Option<String>, ValidationError>)
    ensures
        match kid {
            Ok(id) => jwt_header_of(token@) matches Some(header) && opt_text(id) == header.1,
            Err(error) => jwt_header_of(token@) is None && error is Jwt,
        },
{
    match decode_token_header(token) {
        Ok(header) => Ok(header.kid),
        Err(error) => Err(ValidationError::Jwt(error)),
    }
}

/// Whether `token` names, in a readable header, an algorithm of `allowed`.
pub open spec fn names_allowed_algorithm(token: Seq<char>, allowed: Seq<Algorithm>) -> bool {
    jwt_header_of(token) matches Some(header) && allowed.contains(header.0)
}

/// What holds of a token that was accepted with the key `key` under the
/// algorithms `allowed`, and of the claims `found` that were handed out: the
/// key is a usable RSA key and the token's signature holds under the
/// verification key built from it; the token names an allowed algorithm; and
/// the claims are the token's own.
pub open spec fn spec_accepted(
    token: Seq<char>,
    key: Option<Jwk>,
    allowed: Seq<Algorithm>,
    found: Value,
) -> bool {
    &&& key matches Some(jwk) && (jwk.spec_decoding_key() matches Some(built) && jwt_signed_by(
        token,
        built,
    ))
    &&& names_allowed_algorithm(token, allowed)
    &&& jwt_claims_of(token) == Some(found)
}

/// Validates `token` with the key that the lookup for its key id returned,
/// and hands out its claims.
///
/// Without a key the token is refused with `KeyNotFound`; with a key that is
/// no usable RSA key, with the reason for that. Otherwise signature and
/// claims are checked with the verification key of that key. A token that is
/// accepted is signed under that key and names an algorithm that the
/// validation allows: one signed with any other algorithm is refused, however
/// valid it is otherwise. The claims handed out are those of the token.
pub fn validate_jwt_generic(token: &str, key: Option<Jwk>, validation: &JwtValidation) -> (claims:
    Result<Value, ValidationError>)
    ensures
        match claims {
            Ok(found) => spec_accepted(token@, key, validation.model().algorithms, found),
            Err(error) => match key {
                None => error is KeyNotFound,
                Some(jwk) => if jwk.spec_usable() {
                    error is Jwt
                } else {
                    jwk.spec_unusable(error)
                },
            },
        },
        claims is Ok ==> names_allowed_algorithm(token@, validation.model().algorithms),
        !names_allowed_algorithm(token@, validation.model().algorithms) ==> claims is Err,
{
    proof {
        use_type_invariant(validation);
    }
    let jwk = match key {
        Some(jwk) => jwk,
        None => {
            return Err(ValidationError::KeyNotFound);
        },
    };
    let decoding_key = match jwk.to_decoding_key() {
        Ok(decoding_key) => decoding_key,
        Err(error) => {
            return Err(error);
        },
    };
    match decode_claims(token, &decoding_key, validation.as_validation()) {
        Ok(claims) => Ok(claims),
        Err(error) => Err(ValidationError::Jwt(error)),
    }
}

/// Turns the result of a validation into a strategy's answer: an accepted
/// token gives its identity and a refused token counts as no credentials.
/// Everything else is an error of the strategy and never counts as absent
/// credentials: a key endpoint that could not be reached is a network
/// error, any other failure a token error with the failure's message.
pub fn jwt_outcome<I>(validated: Result<I, ValidationError>) -> (outcome: Result<
    Option<I>,
    AuthError,
>)
    ensures
        match validated {
            Ok(identity) => outcome == Ok::<Option<I>, AuthError>(Some(identity)),
            Err(ValidationError::InvalidToken(_)) => outcome == Ok::<Option<I>, AuthError>(None),
            Err(ValidationError::Jwt(_)) => outcome == Ok::<Option<I>, AuthError>(None),
            Err(ValidationError::Http(_)) => outcome == Err::<Option<I>, AuthError>(
                AuthError::Network,
            ),
            Err(error) => outcome matches Err(AuthError::Token(detail)) && detail@
                == error.spec_message(),
        },
{
    match validated {
        Ok(identity) => Ok(Some(identity)),
        Err(ValidationError::InvalidToken(_)) => Ok(None),
        Err(ValidationError::Jwt(_)) => Ok(None),
        Err(ValidationError::Http(_)) => Err(AuthError::Network),
        Err(error) => Err(AuthError::Token(error.message())),
    }
}

/// The address at which an OpenID provider publishes its metadata: the
/// issuer's address with the well-known path behind it.
pub fn discovery_url(issuer_url: &str) -> (url: String)
    ensures
        url@ == issuer_url@ + "/.well-known/openid-configuration"@,
{
    String::from_str(issuer_url).concat("/.well-known/openid-configuration")
}

/// The validation of ID tokens of one issuer for one audience: `RS256`
/// signatures, that issuer and that audience.
pub fn id_token_validation(issuer: &str, audience: &str) -> (validation: JwtValidation)
    ensures
        validation.model() == (ValidationModel {
            algorithms: seq![Algorithm::RS256],
            issuers: Some(set![issuer@]),
            audiences: Some(set![audience@]),
            verifies_signature: true,
            leeway: 60,
            reject_tokens_expiring_in_less_than: 0,
            validates_exp: true,
            validates_nbf: true,
        }),
{
    let mut only: Vec<Algorithm> = Vec::new();
    only.push(Algorithm::RS256);
    let issuer = Some(String::from_str(issuer));
    let audience = Some(String::from_str(audience));
    JwtValidation::new(only, &issuer, &audience)
}

/// `detail` is `prefix` followed by the message of an error of the decoder.
pub open spec fn carries_decoder_message(detail: Seq<char>, prefix: Seq<char>) -> bool {
    exists|cause: JwtError| detail == prefix + #[trigger] jwt_error_text(cause)
}

/// The id of the key that an ID token names in its header. A token whose
/// header cannot be read is refused with a validation error that carries the
/// decoder's message.
pub fn id_token_key_id(id_token: &str) -> (kid: Result<Option<String>, ValidationError>)
    ensures
        match kid {
            Ok(id) => jwt_header_of(id_token@) matches Some(header) && opt_text(id) == header.1,
            Err(error) => jwt_header_of(id_token@) is None && (error matches ValidationError::Validation(
                detail,
            ) && carries_decoder_message(detail@, "Invalid ID Token header: "@)),
        },
{
    match decode_token_header(id_token) {
        Ok(header) => Ok(header.kid),
        Err(error) => {
            let detail = String::from_str("Invalid ID Token header: ").concat(
                jwt_error_message(&error).as_str(),
            );
            proof {
                assert(detail@ == "Invalid ID Token header: "@ + jwt_error_text(error));
            }
            Err(ValidationError::Validation(detail))
        },
    }
}

/// Validates an ID token of `issuer` for `audience` with the key that the
/// lookup for its key id returned, and hands out its claims.
///
/// Every refusal is a validation error: without a key, with a key that is no
/// usable RSA key, and when signature or claims do not hold. A token that is
/// accepted is signed with `RS256` under the verification key of that key,
/// and the claims handed out are those of the token.
pub fn validate_id_token(id_token: &str, key: Option<Jwk>, issuer: &str, audience: &str) -> (claims:
    Result<Value, ValidationError>)
    ensures
        match claims {
            Ok(found) => {
                &&& spec_accepted(id_token@, key, seq![Algorithm::RS256], found)
                &&& jwt_header_of(id_token@) matches Some(header) && header.0 == Algorithm::RS256
            },
            Err(error) => match key {
                None => error matches ValidationError::Validation(detail) && detail@
                    == "No matching key found in JWKS"@,
                Some(jwk) => if jwk.spec_usable() {
                    error matches ValidationError::Validation(detail)
                        && carries_decoder_message(detail@, "ID Token validation failed: "@)
                } else {
                    jwk.spec_unusable(error)
                },
            },
        },
{
    let jwk = match key {
        Some(jwk) => jwk,
        None => {
            return Err(
                ValidationError::Validation(String::from_str("No matching key found in JWKS")),
            );
        },
    };
    let decoding_key = match jwk.to_decoding_key() {
        Ok(decoding_key) => decoding_key,
        Err(error) => {
            return Err(error);
        },
    };
    let validation = id_token_validation(issuer, audience);
    proof {
        use_type_invariant(&validation);
    }
    match decode_claims(id_token, &decoding_key, validation.as_validation()) {
        Ok(claims) => {
            proof {
                assert(jwt_header_of(id_token@) matches Some(header) && seq![
                    Algorithm::RS256,
                ].contains(header.0));
            }
            Ok(claims)
        },
        Err(error) => {
            let detail = String::from_str("ID Token validation failed: ").concat(
                jwt_error_message(&error).as_str(),
            );
            proof {
                assert(detail@ == "ID Token validation failed: "@ + jwt_error_text(error));
            }
            Err(ValidationError::Validation(detail))
        },
    }
}

/// Validation of PASETO tokens is not offered: every token is refused.
pub fn validate_paseto(token: &str, key: &[u8]) -> (claims: Result<Claims, ValidationError>)
    ensures
        claims matches Err(ValidationError::Paseto(detail)) && detail@
            == "PASETO validation not yet fully implemented with JWKS"@,
{
    Err(
        ValidationError::Paseto(
            String::from_str("PASETO validation not yet fully implemented with JWKS"),
        ),
    )
}

} // verus!

use authkestra::error::AuthError;
use authkestra::jwks::{Jwk, JwksCache};
use authkestra::jwt::{
    discovery_url, id_token_key_id, id_token_validation, jwt_outcome, token_key_id, validate_id_token,
    validate_jwt_generic, validate_paseto, JwtStrategy, JwtValidation, ValidationConfig,
    ValidationError, DEFAULT_REFRESH_INTERVAL,
};
use jsonwebtoken::Algorithm;

const MODULUS: &str = "jVpRtP9CDY77k_NNnQ6ZCQ1DQj3g2eMYER1OyqieUhrfVhH8HKJXZd9RfRPYQC05SwFAJraF5VbEa3li\
    2OFMAkmbDjioGCyxRfG81mnfHheL-PwLz0iwzbvbxvIBh2re8GLZoEm_cWRmrPedW6euwDFSdEi3ojcS\
    gKtakkOvfb2eFOaUSNgxNqOMDKD4L7nGpRlt3txwMTIWD9yX8vMQbt7DYMqsPj0YZ88Swga27fSLBuJG\
    GiT37oewH8AAm7HJqmiJd7AYPcUyTxS4i8S41-kbl8MdMVD4dBfZlVfN4LapyfLmF5lTm795IR6VKShB\
    yMK6kp9IcAUrEKwqvnI2_Q";
const EXPONENT: &str = "AQAB";
const GOOD: &str = "eyJhbGciOiJSUzI1NiIsInR5cCI6IkpXVCIsImtpZCI6ImsxIn0.eyJzdWIiOiJ1c2VyLTEiLCJpc3Mi\
    OiJodHRwczovL2lzc3Vlci5leGFtcGxlIiwiYXVkIjoiYXBpIiwiZXhwIjo0MTAyNDQ0ODAwfQ.fwCjC\
    cQB1atVdAYyNImE2xBJj0_3Cyhly86JpcRooxrQxeJT1CEB-LXpyMR3hHKfnbsIaUjWKiXGg-SFgkf6T\
    T061GROpwJk1hOuJ-fKb_95Y6qxcVot6fHzbz4aR2oJ0d1ImPRcxSUIIc8yJ0d9EZy4p5r2QX8IVds59\
    RuPSFhPXGe5fLf9keXvzKinWye6qUe4IAVHEgLk5wzZxK24A7mCM4WNS27Nv2hRyv34rTFXrs7-T-trT\
    7nsJoKIY2bUs8ISZuv58nY1kAqVRNGnVbM_YZn1H41PKcu7XlzJzxRXYP3FfWukQPPvtaWWp_qEqxRlk\
    Gu5AT3NwU6pDw1DvA";
const EXPIRED: &str = "eyJhbGciOiJSUzI1NiIsInR5cCI6IkpXVCIsImtpZCI6ImsxIn0.eyJzdWIiOiJ1c2VyLTEiLCJpc3Mi\
    OiJodHRwczovL2lzc3Vlci5leGFtcGxlIiwiYXVkIjoiYXBpIiwiZXhwIjoxMDAwMDAwMDAwfQ.iGYMq\
    KpZWVKB1DAlNnVjQ4Q3EHo406ppwSKt5-lyVzAv_Ep2Ve_gDYQeCOrxKGQ2dlqKb2PmP79_j4PPQkxo0\
    DKZtri5NgL_cV2qIB037DG3uvFBVuPPBIov-C8nzGrlo2EusuWJ11A3nnQjALiZu9p4mcegMT3EfsCNr\
    gTl6wsgF--B7stXIoAD-vX4UIi3XWasx0oHKmbDdgoC8e7kGLqmHkUqJaqtjIPmtt3xEaT3_0Re3oRk7\
    viS2aa0efmeNiq1gI8v6UtloEeYF62rTC_jvfYdnHVmvqy-EyyEdoTztFmsmvHWRdVGOa-4fxRIbIwd_\
    ogLDR5BVdjGU3Rakg";
const NO_KID: &str = "eyJhbGciOiJSUzI1NiIsInR5cCI6IkpXVCJ9.eyJzdWIiOiJ1c2VyLTIiLCJleHAiOjQxMDI0NDQ4MDB\
    9.TP3Z7Rp1nRtRVeEO9KMgzt3iun1AjkJzQltGJYbTQNSECr_55zc7eprwUbSraMDdtq99TWUNSaDRFE\
    kzhylmYEbGoUd-uLOSL7WDH5xUjlqb40qrk-1ff-I5viozn0Km253WoovrP_dkZcVZC-3sVVrfwNKvAj\
    6wwmCJC1JOeB065O_OFZIDAOKjL1LP5HUKSi2rXFgVp5xkIEusZje1q1Y3sfhZIsttuhs8uWlDJZzNR9\
    DH7eoELFAnGLKjDXkC4dsLW83Jzus6JVDxr1cVu6XIx4HTVHJoSxN67KeriMN6VBGFJbjsbg83VJ3dqW\
    y9FCuWojK-CUnL8kYI4N30VA";
const EARLY: &str = "eyJhbGciOiJSUzI1NiIsInR5cCI6IkpXVCIsImtpZCI6ImsxIn0.eyJzdWIiOiJ1c2VyLTEiLCJpc3Mi\
    OiJodHRwczovL2lzc3Vlci5leGFtcGxlIiwiYXVkIjoiYXBpIiwiZXhwIjo0MTAyNDQ0ODAwLCJuYmYi\
    OjQxMDI0NDQwMDB9.RUFzgSwDyLnkHySVkQtehX3SsCtQsvIXGDvyhLyA-3xety67CZB2FI-zmZ5PyL7\
    nZzxszSm5OPhoZ5kW2tr_gpRWC1zoloUiaBhKzo8wfTcJzbR2y-X9CaMHrDny55h6Pe65c2YqSzjTrK7\
    IlaZrFKqG3x0oxUPbbZs6XktRQsgyygSvcF2aRGKmYY1QtK2p1L2VzHfPs78LOZN139IUoWqxBnheEGX\
    CcOao8v3q0l73tODw5NvXoFORgmGEbYjBvYu9QtY-ZuwcEkQGB2D3o6QKam7SSAp6O1w3yE3XzBdgBM6\
    tGXWr-wbQZVyrxFCqt1ZxJ8dD-iBXeipljvr9ZA";
const STARTED: &str = "eyJhbGciOiJSUzI1NiIsInR5cCI6IkpXVCIsImtpZCI6ImsxIn0.eyJzdWIiOiJ1c2VyLTEiLCJpc3Mi\
    OiJodHRwczovL2lzc3Vlci5leGFtcGxlIiwiYXVkIjoiYXBpIiwiZXhwIjo0MTAyNDQ0ODAwLCJuYmYi\
    OjEwMDAwMDAwMDB9.SidoFE5SDqMtjrca4BrSpg0kV-uZcSEePEg4XL8qIfCfK6XDZSkwCUsGs4tQT3h\
    WwfwZOZjD46XWF4XQsLSrmin1fxhXRo6Jo4UQA6QWzNHZbontE0B1ehYfzX4YinruAEA0-bf97tDgfwc\
    bO1BlOQy_MstU-LCZlkDf8Dy_OHawOQdZCAzHaAU3LXTCZP7mqa0RQAWIaJfp7elSMsD-ifaO-KXgk4T\
    BxBwDIgvZEyA_DZ5hMVAFByBvSodC0dPf_WI_W4PF_IYz5oqWhJhASLW7C4EchKFOO1QTC1sHMugytDr\
    sUpIfAoi67F9BChDpFsVpRm_1HoTCz6SvL5CIqQ";
const HS256: &str = "eyJhbGciOiJIUzI1NiIsInR5cCI6IkpXVCIsImtpZCI6ImsxIn0.eyJzdWIiOiJ1c2VyLTEiLCJpc3Mi\
    OiJodHRwczovL2lzc3Vlci5leGFtcGxlIiwiYXVkIjoiYXBpIiwiZXhwIjo0MTAyNDQ0ODAwfQ.riAIy\
    bGwYtDYQJLfnHpz5xOISQZ2vNBPFICmanbRst8";

fn rsa_key() -> Jwk {
    Jwk {
        kid: Some("k1".to_string()),
        kty: "RSA".to_string(),
        alg: Some("RS256".to_string()),
        n: Some(MODULUS.to_string()),
        e: Some(EXPONENT.to_string()),
    }
}

fn strategy(algorithms: Vec<Algorithm>) -> (JwksCache, JwtValidation) {
    let config = ValidationConfig::builder()
        .jwks_url("https://issuer.example/jwks")
        .issuer("https://issuer.example")
        .audience("api")
        .algorithms(algorithms)
        .build();
    JwtStrategy::<serde_json::Value>::new(config).into_parts()
}

#[test]
fn builder_defaults() {
    let config = ValidationConfig::builder().jwks_url("https://issuer.example/jwks").build();
    assert_eq!(config.jwks_url, "https://issuer.example/jwks");
    assert_eq!(config.refresh_interval, 3600);
    assert_eq!(DEFAULT_REFRESH_INTERVAL, 3600);
    assert_eq!(config.issuer, None);
    assert_eq!(config.audience, None);
    assert_eq!(config.algorithms, vec![Algorithm::RS256]);
}

#[test]
fn builder_keeps_what_was_set() {
    let config = ValidationConfig::builder()
        .jwks_url("u")
        .refresh_interval(60)
        .issuer("iss")
        .audience("aud")
        .algorithms(vec![Algorithm::RS384, Algorithm::RS512])
        .build();
    assert_eq!(config.jwks_url, "u");
    assert_eq!(config.refresh_interval, 60);
    assert_eq!(config.issuer.as_deref(), Some("iss"));
    assert_eq!(config.audience.as_deref(), Some("aud"));
    assert_eq!(config.algorithms, vec![Algorithm::RS384, Algorithm::RS512]);
}

#[test]
fn strategy_is_built_from_the_configuration() {
    let config = ValidationConfig::builder()
        .jwks_url("https://issuer.example/jwks")
        .refresh_interval(120)
        .issuer("https://issuer.example")
        .audience("api")
        .algorithms(vec![Algorithm::RS256, Algorithm::RS384])
        .build();
    let strategy = JwtStrategy::<serde_json::Value>::new(config);
    assert_eq!(strategy.cache().jwks_uri(), "https://issuer.example/jwks");
    assert!(strategy.cache().get_jwks(0).is_none());
    let validation = strategy.validation().as_validation();
    assert_eq!(validation.algorithms, vec![Algorithm::RS256, Algorithm::RS384]);
    assert_eq!(validation.leeway, 60);
    assert_eq!(validation.reject_tokens_expiring_in_less_than, 0);
    let issuers: Vec<&String> = validation.iss.as_ref().unwrap().iter().collect();
    assert_eq!(issuers, [&"https://issuer.example".to_string()]);
    let audiences: Vec<&String> = validation.aud.as_ref().unwrap().iter().collect();
    assert_eq!(audiences, [&"api".to_string()]);
    let (mut cache, _) = strategy.into_parts();
    cache.refresh(authkestra::jwks::Jwks { keys: vec![rsa_key()] }, 10);
    assert!(cache.get_jwks(129).is_some());
    assert!(cache.get_jwks(130).is_none());
}

#[test]
fn strategy_without_issuer_and_audience_sets_neither() {
    let config = ValidationConfig::builder().jwks_url("u").build();
    let strategy = JwtStrategy::<serde_json::Value>::new(config);
    assert_eq!(strategy.validation().as_validation().iss, None);
    assert_eq!(strategy.validation().as_validation().aud, None);
    assert_eq!(strategy.validation().as_validation().algorithms, vec![Algorithm::RS256]);
}

#[test]
fn key_id_is_read_from_the_header() {
    assert_eq!(token_key_id(GOOD).unwrap(), Some("k1".to_string()));
    assert_eq!(token_key_id(NO_KID).unwrap(), None);
    assert_eq!(token_key_id(HS256).unwrap(), Some("k1".to_string()));
}

#[test]
fn unreadable_header_is_refused() {
    for token in ["", "abc", "a.b", "a.b.c", "a.b.c.d"] {
        assert!(matches!(token_key_id(token), Err(ValidationError::Jwt(_))), "{}", token);
    }
}

#[test]
fn valid_token_yields_its_claims() {
    let (_, validation) = strategy(vec![Algorithm::RS256]);
    let claims = validate_jwt_generic(GOOD, Some(rsa_key()), &validation).unwrap();
    assert_eq!(claims.get("sub").and_then(|v| v.as_str()), Some("user-1"));
    assert_eq!(claims.get("iss").and_then(|v| v.as_str()), Some("https://issuer.example"));
    assert_eq!(claims.get("aud").and_then(|v| v.as_str()), Some("api"));
    assert_eq!(claims.get("exp").and_then(|v| v.as_u64()), Some(4102444800));
}

#[test]
fn token_without_a_key_is_key_not_found() {
    let (_, validation) = strategy(vec![Algorithm::RS256]);
    assert!(matches!(
        validate_jwt_generic(GOOD, None, &validation),
        Err(ValidationError::KeyNotFound)
    ));
}

#[test]
fn token_with_an_unusable_key_is_a_validation_error() {
    let (_, validation) = strategy(vec![Algorithm::RS256]);
    let mut key = rsa_key();
    key.kty = "oct".to_string();
    match validate_jwt_generic(GOOD, Some(key), &validation) {
        Err(ValidationError::Validation(detail)) => {
            assert_eq!(detail, "Only RSA keys are supported currently")
        }
        _ => panic!("a symmetric key was used"),
    }
}

#[test]
fn token_signed_with_an_algorithm_off_the_list_is_refused() {
    let (_, validation) = strategy(vec![Algorithm::RS256]);
    assert!(matches!(
        validate_jwt_generic(HS256, Some(rsa_key()), &validation),
        Err(ValidationError::Jwt(_))
    ));
    let (_, validation) = strategy(vec![Algorithm::RS384]);
    assert!(matches!(
        validate_jwt_generic(GOOD, Some(rsa_key()), &validation),
        Err(ValidationError::Jwt(_))
    ));
    let (_, validation) = strategy(vec![Algorithm::RS384, Algorithm::RS256]);
    assert!(validate_jwt_generic(GOOD, Some(rsa_key()), &validation).is_ok());
}

#[test]
fn expired_token_is_refused() {
    let (_, validation) = strategy(vec![Algorithm::RS256]);
    assert!(matches!(
        validate_jwt_generic(EXPIRED, Some(rsa_key()), &validation),
        Err(ValidationError::Jwt(_))
    ));
}

#[test]
fn token_that_is_not_yet_valid_is_refused() {
    let (_, validation) = strategy(vec![Algorithm::RS256]);
    assert!(matches!(
        validate_jwt_generic(EARLY, Some(rsa_key()), &validation),
        Err(ValidationError::Jwt(_))
    ));
    let claims = validate_jwt_generic(STARTED, Some(rsa_key()), &validation).unwrap();
    assert_eq!(claims.get("nbf").and_then(|v| v.as_u64()), Some(1000000000));
    assert!(validation.as_validation().validate_nbf);
    assert!(validation.as_validation().validate_exp);
    assert!(id_token_validation("i", "a").as_validation().validate_nbf);
    assert!(validate_id_token(EARLY, Some(rsa_key()), "https://issuer.example", "api").is_err());
}

#[test]
fn token_of_another_issuer_or_audience_is_refused() {
    let config = ValidationConfig::builder().jwks_url("u").issuer("https://other.example").build();
    let (_, validation) = JwtStrategy::<serde_json::Value>::new(config).into_parts();
    assert!(matches!(
        validate_jwt_generic(GOOD, Some(rsa_key()), &validation),
        Err(ValidationError::Jwt(_))
    ));
    let config = ValidationConfig::builder()
        .jwks_url("u")
        .issuer("https://issuer.example")
        .audience("other")
        .build();
    let (_, validation) = JwtStrategy::<serde_json::Value>::new(config).into_parts();
    assert!(matches!(
        validate_jwt_generic(GOOD, Some(rsa_key()), &validation),
        Err(ValidationError::Jwt(_))
    ));
}

#[test]
fn tampered_token_is_refused() {
    let (_, validation) = strategy(vec![Algorithm::RS256]);
    let mut tampered = GOOD.to_string();
    let last = tampered.pop().unwrap();
    tampered.push(if last == 'A' { 'B' } else { 'A' });
    assert!(matches!(
        validate_jwt_generic(&tampered, Some(rsa_key()), &validation),
        Err(ValidationError::Jwt(_))
    ));
    let mut wrong_key = rsa_key();
    wrong_key.n = Some(format!("x{}", &MODULUS[1..]));
    assert!(matches!(
        validate_jwt_generic(GOOD, Some(wrong_key), &validation),
        Err(ValidationError::Jwt(_))
    ));
}

#[test]
fn validation_is_built_from_its_parts() {
    let validation = JwtValidation::new(
        vec![Algorithm::PS256],
        &Some("iss".to_string()),
        &None,
    );
    let inner = validation.as_validation();
    assert_eq!(inner.algorithms, vec![Algorithm::PS256]);
    assert_eq!(inner.iss.as_ref().map(|set| set.len()), Some(1));
    assert!(inner.iss.as_ref().unwrap().contains("iss"));
    assert_eq!(inner.aud, None);
}

#[test]
fn id_token_is_validated_for_its_issuer_and_audience() {
    let validation = id_token_validation("https://issuer.example", "api");
    let inner = validation.as_validation();
    assert_eq!(inner.algorithms, vec![Algorithm::RS256]);
    assert!(inner.iss.as_ref().unwrap().contains("https://issuer.example"));
    assert!(inner.aud.as_ref().unwrap().contains("api"));

    assert_eq!(id_token_key_id(GOOD).unwrap(), Some("k1".to_string()));
    match id_token_key_id("junk") {
        Err(ValidationError::Validation(detail)) => {
            assert!(detail.starts_with("Invalid ID Token header: "), "{}", detail)
        }
        _ => panic!("an unreadable header was accepted"),
    }

    let claims = validate_id_token(GOOD, Some(rsa_key()), "https://issuer.example", "api").unwrap();
    assert_eq!(claims.get("sub").and_then(|v| v.as_str()), Some("user-1"));
    match validate_id_token(GOOD, Some(rsa_key()), "https://issuer.example", "other") {
        Err(ValidationError::Validation(detail)) => {
            assert!(detail.starts_with("ID Token validation failed: "), "{}", detail)
        }
        _ => panic!("a token for another audience was accepted"),
    }
    match validate_id_token(GOOD, None, "https://issuer.example", "api") {
        Err(ValidationError::Validation(detail)) => {
            assert_eq!(detail, "No matching key found in JWKS")
        }
        _ => panic!("a token without a key was accepted"),
    }
    let mut other = rsa_key();
    other.e = None;
    match validate_id_token(GOOD, Some(other), "https://issuer.example", "api") {
        Err(ValidationError::Validation(detail)) => {
            assert_eq!(detail, "Missing 'e' component in JWK")
        }
        _ => panic!("a key without exponent was accepted"),
    }
    assert!(validate_id_token(HS256, Some(rsa_key()), "https://issuer.example", "api").is_err());
}

#[test]
fn refused_tokens_count_as_absent_credentials() {
    assert_eq!(jwt_outcome(Ok(7u32)), Ok(Some(7)));
    assert_eq!(jwt_outcome::<u32>(Err(ValidationError::InvalidToken("x".to_string()))), Ok(None));
    let refused = jsonwebtoken::decode_header("junk").unwrap_err();
    assert_eq!(jwt_outcome::<u32>(Err(ValidationError::Jwt(refused))), Ok(None));
}

#[test]
fn infrastructure_failures_are_errors_of_the_strategy() {
    assert_eq!(
        jwt_outcome::<u32>(Err(ValidationError::KeyNotFound)),
        Err(AuthError::Token("Key not found in JWKS".to_string()))
    );
    assert_eq!(
        jwt_outcome::<u32>(Err(ValidationError::Validation("bad key".to_string()))),
        Err(AuthError::Token("Validation error: bad key".to_string()))
    );
    assert_eq!(
        jwt_outcome::<u32>(Err(ValidationError::Serialization("eof".to_string()))),
        Err(AuthError::Token("Serialization error: eof".to_string()))
    );
    assert_eq!(
        jwt_outcome::<u32>(Err(ValidationError::Discovery(AuthError::Network))),
        Err(AuthError::Token("Discovery error: Network error".to_string()))
    );
    assert_eq!(
        jwt_outcome::<u32>(Err(ValidationError::Paseto("x".to_string()))),
        Err(AuthError::Token("PASETO error: x".to_string()))
    );
}

#[test]
fn unreachable_key_endpoint_is_a_network_error() {
    assert_eq!(
        jwt_outcome::<u32>(Err(ValidationError::Http("timeout".to_string()))),
        Err(AuthError::Network)
    );
    assert_eq!(
        jwt_outcome::<u32>(Err(ValidationError::Http(String::new()))),
        Err(AuthError::Network)
    );
}

#[test]
fn metadata_is_published_under_the_well_known_path() {
    assert_eq!(
        discovery_url("https://accounts.example.com"),
        "https://accounts.example.com/.well-known/openid-configuration"
    );
    assert_eq!(discovery_url(""), "/.well-known/openid-configuration");
}

#[test]
fn paseto_is_not_offered() {
    match validate_paseto("v4.public.abc", b"key") {
        Err(ValidationError::Paseto(detail)) => {
            assert_eq!(detail, "PASETO validation not yet fully implemented with JWKS")
        }
        _ => panic!("a PASETO token was accepted"),
    }
}

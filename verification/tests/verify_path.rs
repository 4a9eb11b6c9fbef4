//! Tokens through all stages of verification, signed with a key made for these
//! tests alone.

use base64::engine::general_purpose::URL_SAFE_NO_PAD;
use base64::Engine as _;
use chirp_auth_client::audience::AudienceClaim;
use chirp_auth_client::identity::{accept_id_claims, principal_of};
use chirp_auth_client::jwt::JwtHeader;
use chirp_auth_client::keys::{keys_fetched, Jwk, Jwks};
use chirp_auth_client::verify::{AwaitingClaims, AwaitingHeader};
use chirp_auth_client::{
    ChirpAuthConfig, ChirpAuthError, ChirpClaims, ChirpVerifiedIdentity, ChirpVerifiedToken, Claims,
    Environment, VerifyOptions,
};
use serde_json::Value;

const KID: &str = "test-kid-1";
const ISS: &str = "https://signin.test.example";
const AUD: &str = "cs_test_audience";

/// A private key (PKCS#8, base64url) that signs nothing but test tokens.
const SIGNING_KEY: &str = "\
    MIIEvQIBADANBgkqhkiG9w0BAQEFAASCBKcwggSjAgEAAoIBAQCCPuGLlQrHZfySMw3AeScClZvB\
    wClMC4qyR7OSrqIWFAi8a56VSkBnUYOHF9kttol3jfnMyOmpxuqeAIjADzap8E4DKdN_geQ6OPsz\
    TpI55aifXSVnM-egnZHGUzJGat-\
    yEEyeQRHkVBV2k0JRzxLfIqqt4vnk4kfUDd0boYi9rIEBPCHL9l3QTddjC-\
    wzCZHxSlt37l3kFLIDl9l-ZHQdTOkvi8gvP8_CTxGiRc71QdkA7nX0jUPqJvLCydPh_-LSjJzwKc\
    whYbABAn1_cv9Woj2bovlPFX5orrCRFWXgTjBvpL7RwcwOMoIuvM0P0Wko1X26vdDf3ha1WwfJ2k\
    -nAgMBAAECggEAIDjZSNSDGaiYDz1VMiBm78M-iPT24oracde-\
    S9QrYmXrcV34mjuH6memsAXM43vMz4iO28R61ldRVOyR6F37Kpi6XBr9aYajhWnyb5OJJoy0JlT_\
    e2RCciB5X4TWo8gt9loE8oPrnr7UnoS4_A9MPmrPqfxE0YTPu10AriTM9Qt9d0kl2B3LzaVDATuQ\
    qHDYcvqenq_C_Fsky4ro85zHIFExJ62D8c7xbBt9puBUHew7R6JlGMA990UeZs360sO7vO5yeCxK\
    ZggQAzzRmd_6Ma829bHrR8jnjTbIpQvbdELmWmjmPb8vdGmoIUuQkbbQcA3T8nqx2Y-\
    4CnvkmNZwvQKBgQC2pDJbVIbaVdEhreZL4qKEqpZkxND9eHo4GrCVcMMYVJuqXBm5r1vTFAGDZUs\
    VheKslTY_0Ja0-\
    aKmBTPatB3enMm8F5zYvZQlAU2tgXPNcxS2bdarqDkI9vJcWqcdAi4V7j04JFG-\
    B3aPr_rX9fx6Tb_eFszCYXQowy3oybMXRQKBgQC2jyzjfbOlTtguy8GUOChy8D1YS-TdLX5-\
    wxWxw9HN5E2HSQCNoUdij4Ph7nmpokVg5AoNPm21fzALmFc5gENBP7amqxTG9CI0XbXrlr3NZzSf\
    waKivr1VLUyrTyQbQB_DI2oe_J1Hs_8VLVhKI0KEL29GeSqIS-EG0aCshDzz-wKBgAqSwt-Kqyvk\
    n_DFMnneKu5nOcGnqzmhSeIJmYNtPb4g18oq_spDHpu_or7KlGgwkgjPso5LMw5TDVlzH6dfmgMT\
    LJKZA1mA0By8UJTk06FnMiHFhhH18SdVtH4oOVhykdxvKFghsiHAKNr0ox7xfKZP7fWbeEsgfSsG\
    8ZdyZc3JAoGAOkhtgVdxUhZg6Fe-vo5LQ561Rwo7z-0lVFz-ARnOUphPtCA3YAAcZTgCV9Al4WVg\
    FvXWy7Ghnu8zLJB_UGlFj4BC1OULphTtEqDUYplmkTwgzdwpCyIwGhBzSMHkehq3yTn2OFxX7jtl\
    9aHbbRfitYbbVLl8PbVT6zRjwpAZUZ8CgYEAiNrNiMfBSdUncWG_EHpUOu1eDHuobSI4wEZIPx_b\
    832SX-7jt8iLfJ0wNr5g9ltHAabdqla8hwjEbq8Seqdx0Dq9W0rXaP7vI-\
    igbX6s-LLznxBrX9W1wgZLVIhcDa4Kvw-whN8-br2ydFGjoW6fkI11rgwdQ1gCF3AlGPR5jPk";

fn keypair() -> ring::rsa::KeyPair {
    let der = URL_SAFE_NO_PAD.decode(SIGNING_KEY).unwrap();
    ring::rsa::KeyPair::from_pkcs8(&der).unwrap()
}

fn test_key() -> Jwk {
    let public = ring::rsa::PublicKeyComponents::<Vec<u8>>::from(keypair().public());
    Jwk {
        kty: "RSA".to_owned(),
        kid: KID.to_owned(),
        alg: Some("RS256".to_owned()),
        n: URL_SAFE_NO_PAD.encode(public.n),
        e: URL_SAFE_NO_PAD.encode(public.e),
    }
}

fn published() -> Result<Jwks, String> {
    Ok(Jwks { keys: vec![test_key()] })
}

fn sign_with_test_key(signing_input: &[u8]) -> Vec<u8> {
    let key = keypair();
    let mut signature = vec![0u8; key.public().modulus_len()];
    key.sign(
        &ring::signature::RSA_PKCS1_SHA256,
        &ring::rand::SystemRandom::new(),
        signing_input,
        &mut signature,
    )
    .unwrap();
    signature
}

fn b64(s: &str) -> String {
    URL_SAFE_NO_PAD.encode(s.as_bytes())
}

fn make_signed_jwt(header_json: &str, claims_json: &str) -> String {
    let signing_input = format!("{}.{}", b64(header_json), b64(claims_json));
    let sig = sign_with_test_key(signing_input.as_bytes());
    format!("{signing_input}.{}", URL_SAFE_NO_PAD.encode(sig))
}

fn make_jwt_with_signature(header_json: &str, claims_json: &str, raw_sig: &[u8]) -> String {
    format!(
        "{}.{}.{}",
        b64(header_json),
        b64(claims_json),
        URL_SAFE_NO_PAD.encode(raw_sig)
    )
}

fn now_unix() -> i64 {
    time::OffsetDateTime::now_utc().unix_timestamp()
}

fn good_claims(iss: &str, aud: &str, exp: i64) -> String {
    format!(
        r#"{{"iss":"{iss}","sub":"sub_test","aud":"{aud}","exp":{exp},"email":"u@example.test"}}"#
    )
}

fn good_header() -> String {
    format!(r#"{{"alg":"RS256","typ":"JWT","kid":"{KID}"}}"#)
}

fn production_config() -> ChirpAuthConfig {
    ChirpAuthConfig::new(ISS, AUD)
}

fn text(object: &Value, name: &str) -> Option<String> {
    object.get(name)?.as_str().map(str::to_owned)
}

fn parse_header(json: &[u8]) -> Option<JwtHeader> {
    let object: Value = serde_json::from_slice(json).ok()?;
    Some(JwtHeader { alg: text(&object, "alg")?, kid: text(&object, "kid")? })
}

fn parse_claims(json: &[u8]) -> Option<ChirpClaims> {
    let object: Value = serde_json::from_slice(json).ok()?;
    let aud = match object.get("aud")? {
        Value::String(one) => AudienceClaim::One(one.clone()),
        Value::Array(many) => AudienceClaim::Many(
            many.iter().map(|a| a.as_str().map(str::to_owned)).collect::<Option<Vec<String>>>()?,
        ),
        _ => return None,
    };
    Some(ChirpClaims {
        iss: text(&object, "iss")?,
        sub: text(&object, "sub")?,
        aud,
        exp: object.get("exp")?.as_i64()?,
        act: text(&object, "act"),
        owner_sub: text(&object, "owner_sub"),
        email: text(&object, "email"),
        name: text(&object, "name"),
        root_sub: text(&object, "root_sub"),
        test: object.get("test").and_then(Value::as_bool),
    })
}

fn authenticate<'a>(
    stage: AwaitingHeader<'a>,
    reply: Result<Jwks, String>,
) -> Result<AwaitingClaims<'a>, ChirpAuthError> {
    let header = parse_header(stage.header_json());
    let stage = stage.on_header(header)?;
    stage.on_keys(reply)
}

fn finish(
    stage: AwaitingClaims<'_>,
    options: VerifyOptions,
) -> Result<ChirpVerifiedToken, ChirpAuthError> {
    let claims = parse_claims(stage.claims_json());
    stage.id_token(claims, &options)
}

fn verify_chirp_id_token(
    reply: Result<Jwks, String>,
    config: &ChirpAuthConfig,
    token: &str,
    options: VerifyOptions,
) -> Result<ChirpVerifiedToken, ChirpAuthError> {
    finish(authenticate(AwaitingHeader::start(config, token)?, reply)?, options)
}

fn verify_from_headers(
    reply: Result<Jwks, String>,
    headers: &http::HeaderMap,
    config: &ChirpAuthConfig,
    options: VerifyOptions,
) -> Result<ChirpVerifiedIdentity, ChirpAuthError> {
    finish(
        authenticate(AwaitingHeader::start_from_headers(config, headers)?, reply)?,
        options,
    )
    .map(|verified| verified.identity)
}

fn verify_rs256_jws(
    reply: Result<Jwks, String>,
    config: &ChirpAuthConfig,
    token: &str,
    validate_aud: bool,
) -> Result<Claims, ChirpAuthError> {
    let stage = authenticate(AwaitingHeader::start(config, token)?, reply)?;
    let claims = parse_claims(stage.claims_json());
    stage.jws(claims, validate_aud)
}

#[test]
fn rejects_malformed_token() {
    let config = ChirpAuthConfig::new("https://example.test", "drive")
        .with_jwks_uri("https://example.test/jwks.json");
    let err =
        verify_chirp_id_token(published(), &config, "not.a.jwt.too.many", VerifyOptions::default())
            .unwrap_err();
    assert!(matches!(err, ChirpAuthError::MalformedToken));
}

#[test]
fn rejects_two_segment_token() {
    let config = ChirpAuthConfig::new("https://example.test", "drive")
        .with_jwks_uri("https://example.test/jwks.json");
    let err = verify_chirp_id_token(published(), &config, "abc.def", VerifyOptions::default())
        .unwrap_err();
    assert!(matches!(err, ChirpAuthError::MalformedToken));
}

#[test]
fn chirp_claims_parses_root_sub_when_present_and_absent() {
    let root_of = |claims: ChirpClaims| match principal_of(claims, &VerifyOptions::default()) {
        Ok(ChirpVerifiedIdentity::Human { root_sub, .. }) => root_sub,
        other => panic!("got {other:?}"),
    };
    // Absent: the root identity is the subject.
    let absent =
        parse_claims(br#"{"iss":"x","sub":"sub_a","aud":"x","exp":1}"#).expect("parse");
    assert_eq!(absent.root_sub, None);
    assert_eq!(root_of(absent), "sub_a");

    // Present and equal to the subject.
    let same =
        parse_claims(br#"{"iss":"x","sub":"sub_a","aud":"x","exp":1,"root_sub":"sub_a"}"#)
            .expect("parse");
    assert_eq!(same.root_sub.as_deref(), Some("sub_a"));
    assert_eq!(root_of(same), "sub_a");

    // Present and distinct.
    let distinct = parse_claims(
        br#"{"iss":"x","sub":"persona_xyz","aud":"x","exp":1,"root_sub":"sub_root_a"}"#,
    )
    .expect("parse");
    assert_eq!(distinct.root_sub.as_deref(), Some("sub_root_a"));
    assert_eq!(root_of(distinct), "sub_root_a");
}

#[test]
fn chirp_claims_parses_test_flag_when_present_and_absent() {
    let config = ChirpAuthConfig::new("x", "x");
    let accepted = |claims: ChirpClaims| {
        accept_id_claims(&config, claims, &VerifyOptions::default(), 0).is_ok()
    };
    // Absent: production provenance.
    let absent =
        parse_claims(br#"{"iss":"x","sub":"sub_a","aud":"x","exp":1}"#).expect("parse");
    assert_eq!(absent.test, None);
    assert!(accepted(absent));

    // Present and true: test provenance.
    let present =
        parse_claims(br#"{"iss":"x","sub":"sub_a","aud":"x","exp":1,"test":true}"#)
            .expect("parse");
    assert_eq!(present.test, Some(true));
    assert!(!accepted(present));
}

#[test]
fn accepts_a_well_formed_signed_token_as_human() {
    let token = make_signed_jwt(&good_header(), &good_claims(ISS, AUD, now_unix() + 3600));
    let identity =
        verify_chirp_id_token(published(), &production_config(), &token, VerifyOptions::default())
            .expect("verify");
    assert_eq!(identity.environment, Environment::Production);
    match identity.identity {
        ChirpVerifiedIdentity::Human { sub, email, .. } => {
            assert_eq!(sub, "sub_test");
            assert_eq!(email.as_deref(), Some("u@example.test"));
        }
        _ => panic!("expected Human"),
    }
}

#[test]
fn rejects_token_with_tampered_signature() {
    let token = make_signed_jwt(&good_header(), &good_claims(ISS, AUD, now_unix() + 3600));
    // The first base64 character maps to the leading bits of the signature, so
    // that changing it always changes the signature and stays canonical.
    let (head, sig) = token.rsplit_once('.').expect("jwt has signature segment");
    let mut sig_chars: Vec<char> = sig.chars().collect();
    sig_chars[0] = if sig_chars[0] == 'A' { 'B' } else { 'A' };
    let tampered: String = format!("{head}.{}", sig_chars.into_iter().collect::<String>());
    let err = verify_chirp_id_token(
        published(),
        &production_config(),
        &tampered,
        VerifyOptions::default(),
    )
    .unwrap_err();
    assert!(matches!(err, ChirpAuthError::SignatureInvalid), "got {err:?}");
}

#[test]
fn rejects_expired_token() {
    let token = make_signed_jwt(&good_header(), &good_claims(ISS, AUD, now_unix() - 1));
    let err =
        verify_chirp_id_token(published(), &production_config(), &token, VerifyOptions::default())
            .unwrap_err();
    assert!(matches!(err, ChirpAuthError::Expired), "got {err:?}");
}

#[test]
fn rejects_wrong_audience() {
    let token = make_signed_jwt(
        &good_header(),
        &good_claims(ISS, "cs_test_someone_else", now_unix() + 3600),
    );
    let err =
        verify_chirp_id_token(published(), &production_config(), &token, VerifyOptions::default())
            .unwrap_err();
    assert!(matches!(err, ChirpAuthError::ClaimMismatch), "got {err:?}");
}

#[test]
fn rejects_wrong_issuer() {
    let token = make_signed_jwt(
        &good_header(),
        &good_claims("https://attacker.test", AUD, now_unix() + 3600),
    );
    let err =
        verify_chirp_id_token(published(), &production_config(), &token, VerifyOptions::default())
            .unwrap_err();
    assert!(matches!(err, ChirpAuthError::ClaimMismatch), "got {err:?}");
}

/// A token whose `iss` ends with the expected issuer is of another one.
#[test]
fn rejects_issuer_suffix_attack() {
    let attacker_iss = format!("https://attacker.test/path/{ISS}");
    let token =
        make_signed_jwt(&good_header(), &good_claims(&attacker_iss, AUD, now_unix() + 3600));
    let err =
        verify_chirp_id_token(published(), &production_config(), &token, VerifyOptions::default())
            .unwrap_err();
    assert!(matches!(err, ChirpAuthError::ClaimMismatch), "got {err:?}");
}

#[test]
fn rejects_alg_none_token() {
    let header = format!(r#"{{"alg":"none","typ":"JWT","kid":"{KID}"}}"#);
    let claims = good_claims(ISS, AUD, now_unix() + 3600);
    let token = format!("{}.{}.", b64(&header), b64(&claims));
    let err =
        verify_chirp_id_token(published(), &production_config(), &token, VerifyOptions::default())
            .unwrap_err();
    assert!(
        matches!(err, ChirpAuthError::MalformedToken | ChirpAuthError::UnsupportedAlgorithm),
        "got {err:?}",
    );
}

#[test]
fn rejects_explicit_other_algorithm() {
    let header = format!(r#"{{"alg":"RS512","typ":"JWT","kid":"{KID}"}}"#);
    let claims = good_claims(ISS, AUD, now_unix() + 3600);
    // The algorithm is refused before the signature is looked at.
    let token = make_jwt_with_signature(&header, &claims, &[0u8; 32]);
    let err =
        verify_chirp_id_token(published(), &production_config(), &token, VerifyOptions::default())
            .unwrap_err();
    assert!(matches!(err, ChirpAuthError::UnsupportedAlgorithm), "got {err:?}");
}

/// A key id that is not published must fail at key lookup.
#[test]
fn rejects_unknown_kid() {
    let header = r#"{"alg":"RS256","typ":"JWT","kid":"never-issued"}"#;
    let claims = good_claims(ISS, AUD, now_unix() + 3600);
    let token = make_jwt_with_signature(header, &claims, &[0u8; 256]);
    let err =
        verify_chirp_id_token(published(), &production_config(), &token, VerifyOptions::default())
            .unwrap_err();
    assert!(matches!(err, ChirpAuthError::NoMatchingKey), "got {err:?}");
}

#[test]
fn rejects_machine_token_when_accept_machine_false() {
    let exp = now_unix() + 3600;
    let claims = format!(
        r#"{{"iss":"{ISS}","sub":"agent_test","aud":"{AUD}","exp":{exp},"act":"machine","owner_sub":"sub_owner"}}"#
    );
    let token = make_signed_jwt(&good_header(), &claims);
    let err =
        verify_chirp_id_token(published(), &production_config(), &token, VerifyOptions::default())
            .unwrap_err();
    assert!(matches!(err, ChirpAuthError::MachineNotAllowed), "got {err:?}");
}

#[test]
fn allowlist_accepts_any_listed_audience() {
    let config = ChirpAuthConfig::with_audiences(
        ISS,
        vec!["cs_one".to_owned(), AUD.to_owned(), "cs_three".to_owned()],
    );
    let token = make_signed_jwt(&good_header(), &good_claims(ISS, AUD, now_unix() + 3600));
    let verified = verify_chirp_id_token(published(), &config, &token, VerifyOptions::default())
        .expect("verify");
    assert!(matches!(verified.identity, ChirpVerifiedIdentity::Human { .. }));
}

#[test]
fn allowlist_rejects_unlisted_audience() {
    let config =
        ChirpAuthConfig::with_audiences(ISS, vec!["cs_one".to_owned(), "cs_two".to_owned()]);
    let token = make_signed_jwt(&good_header(), &good_claims(ISS, AUD, now_unix() + 3600));
    let err = verify_chirp_id_token(published(), &config, &token, VerifyOptions::default())
        .unwrap_err();
    assert!(matches!(err, ChirpAuthError::ClaimMismatch), "got {err:?}");
}

#[test]
fn allowlist_accepts_multivalued_aud_intersection() {
    let config = ChirpAuthConfig::new(ISS, AUD);
    let exp = now_unix() + 3600;
    let claims = format!(
        r#"{{"iss":"{ISS}","sub":"sub_test","aud":["cs_other","{AUD}"],"exp":{exp},"email":"u@example.test"}}"#
    );
    let token = make_signed_jwt(&good_header(), &claims);
    let verified = verify_chirp_id_token(published(), &config, &token, VerifyOptions::default())
        .expect("verify");
    assert!(matches!(verified.identity, ChirpVerifiedIdentity::Human { .. }));
}

#[test]
fn verify_from_headers_extracts_and_verifies() {
    let token = make_signed_jwt(&good_header(), &good_claims(ISS, AUD, now_unix() + 3600));
    let mut headers = http::HeaderMap::new();
    headers.insert(
        http::header::AUTHORIZATION,
        http::HeaderValue::from_str(&format!("Bearer {token}")).unwrap(),
    );
    let identity =
        verify_from_headers(published(), &headers, &production_config(), VerifyOptions::default())
            .expect("verify");
    assert!(matches!(identity, ChirpVerifiedIdentity::Human { .. }));
}

#[test]
fn verify_from_headers_missing_bearer() {
    let headers = http::HeaderMap::new();
    let err =
        verify_from_headers(published(), &headers, &production_config(), VerifyOptions::default())
            .unwrap_err();
    assert!(matches!(err, ChirpAuthError::MissingBearer), "got {err:?}");
}

#[test]
fn verify_rs256_jws_returns_claims_and_raw() {
    let config = production_config();
    let exp = now_unix() + 3600;
    let claims = format!(
        r#"{{"iss":"{ISS}","sub":"sub_test","aud":"{AUD}","exp":{exp},"bound_pubkey":"ed25519:abc"}}"#
    );
    let token = make_signed_jwt(&good_header(), &claims);
    let verified = verify_rs256_jws(published(), &config, &token, true).expect("verify");
    assert_eq!(verified.sub, "sub_test");
    assert_eq!(verified.aud, vec![AUD.to_owned()]);
    assert_eq!(
        verified.raw.get("bound_pubkey").and_then(|v| v.as_str()),
        Some("ed25519:abc")
    );
    // A clone says the same.
    let copy = verified.clone();
    assert_eq!(copy.iss, ISS);
    assert_eq!(copy.exp, exp);
    assert_eq!(copy.aud, verified.aud);
    assert_eq!(copy.raw, verified.raw);
    assert_eq!(copy.raw.len(), 5);
}

#[test]
fn verify_rs256_jws_skips_aud_when_not_validating() {
    let config = production_config();
    let exp = now_unix() + 3600;
    let claims = format!(r#"{{"iss":"{ISS}","sub":"sub_test","aud":"cs_unrelated","exp":{exp}}}"#);
    let token = make_signed_jwt(&good_header(), &claims);
    let verified = verify_rs256_jws(published(), &config, &token, false)
        .expect("verify without aud validation");
    assert_eq!(verified.sub, "sub_test");
}

#[test]
fn accepts_machine_token_when_accept_machine_true() {
    let exp = now_unix() + 3600;
    let claims = format!(
        r#"{{"iss":"{ISS}","sub":"agent_test","aud":"{AUD}","exp":{exp},"act":"machine","owner_sub":"sub_owner"}}"#
    );
    let token = make_signed_jwt(&good_header(), &claims);
    let identity = verify_chirp_id_token(
        published(),
        &production_config(),
        &token,
        VerifyOptions { require_email: false, accept_machine: true, ..Default::default() },
    )
    .expect("verify machine");
    assert_eq!(identity.environment, Environment::Production);
    match identity.identity {
        ChirpVerifiedIdentity::Machine { sub, owner_sub, client_id } => {
            assert_eq!(sub, "agent_test");
            assert_eq!(owner_sub, "sub_owner");
            assert_eq!(client_id, AUD);
        }
        _ => panic!("expected Machine"),
    }
}

fn drive_profile() -> VerifyOptions {
    VerifyOptions { accept_machine: true, require_email: false, ..Default::default() }
}

fn pigeon_profile() -> VerifyOptions {
    VerifyOptions { accept_machine: true, require_email: false, ..Default::default() }
}

fn social_graph_profile() -> VerifyOptions {
    VerifyOptions { accept_machine: false, require_email: true, ..Default::default() }
}

fn human_claims_with_email(iss: &str, aud: &str, exp: i64) -> String {
    format!(
        r#"{{"iss":"{iss}","sub":"sub_user","aud":"{aud}","exp":{exp},"email":"u@example.test"}}"#
    )
}

fn human_claims_without_email(iss: &str, aud: &str, exp: i64) -> String {
    format!(r#"{{"iss":"{iss}","sub":"sub_user","aud":"{aud}","exp":{exp}}}"#)
}

fn machine_claims(iss: &str, aud: &str, exp: i64) -> String {
    format!(
        r#"{{"iss":"{iss}","sub":"agent_x","aud":"{aud}","exp":{exp},"act":"machine","owner_sub":"sub_owner"}}"#
    )
}

fn run(profile: VerifyOptions, claims: &str) -> Result<ChirpVerifiedIdentity, ChirpAuthError> {
    let token = make_signed_jwt(&good_header(), claims);
    verify_chirp_id_token(published(), &production_config(), &token, profile)
        .map(|verified| verified.identity)
}

#[test]
fn drive_profile_accepts_human_with_email() {
    let claims = human_claims_with_email(ISS, AUD, now_unix() + 3600);
    let id = run(drive_profile(), &claims).expect("accept");
    assert!(matches!(id, ChirpVerifiedIdentity::Human { .. }));
}

#[test]
fn drive_profile_accepts_human_without_email() {
    let claims = human_claims_without_email(ISS, AUD, now_unix() + 3600);
    let id = run(drive_profile(), &claims).expect("accept");
    assert!(matches!(id, ChirpVerifiedIdentity::Human { email: None, .. }));
}

#[test]
fn drive_profile_accepts_machine_token() {
    let claims = machine_claims(ISS, AUD, now_unix() + 3600);
    let id = run(drive_profile(), &claims).expect("accept");
    assert!(matches!(id, ChirpVerifiedIdentity::Machine { .. }));
}

#[test]
fn pigeon_profile_matches_drive_profile() {
    assert_eq!(
        (drive_profile().accept_machine, drive_profile().require_email),
        (pigeon_profile().accept_machine, pigeon_profile().require_email),
        "Drive and Pigeon profiles diverged. Update this test if intentional.",
    );
}

#[test]
fn social_graph_profile_accepts_human_with_email() {
    let claims = human_claims_with_email(ISS, AUD, now_unix() + 3600);
    let id = run(social_graph_profile(), &claims).expect("accept");
    assert!(matches!(id, ChirpVerifiedIdentity::Human { email: Some(_), .. }));
}

#[test]
fn social_graph_profile_rejects_human_without_email() {
    let claims = human_claims_without_email(ISS, AUD, now_unix() + 3600);
    let err = run(social_graph_profile(), &claims).unwrap_err();
    assert!(matches!(err, ChirpAuthError::EmailRequired), "got {err:?}");
}

#[test]
fn social_graph_profile_rejects_machine_token() {
    let claims = machine_claims(ISS, AUD, now_unix() + 3600);
    let err = run(social_graph_profile(), &claims).unwrap_err();
    assert!(matches!(err, ChirpAuthError::MachineNotAllowed), "got {err:?}");
}

fn human_test_claims(iss: &str, aud: &str, exp: i64) -> String {
    format!(
        r#"{{"iss":"{iss}","sub":"sub_test","aud":"{aud}","exp":{exp},"email":"u@example.test","test":true}}"#
    )
}

fn test_issuer_config() -> (ChirpAuthConfig, String) {
    let test_iss = format!("{ISS}/test/acme");
    let config = ChirpAuthConfig::new(&test_iss, AUD);
    (config, test_iss)
}

#[test]
fn prod_rp_accepts_prod_token() {
    let token = make_signed_jwt(&good_header(), &good_claims(ISS, AUD, now_unix() + 3600));
    let verified =
        verify_chirp_id_token(published(), &production_config(), &token, VerifyOptions::default())
            .expect("verify");
    assert_eq!(verified.environment, Environment::Production);
}

#[test]
fn prod_rp_rejects_test_token() {
    let token = make_signed_jwt(&good_header(), &human_test_claims(ISS, AUD, now_unix() + 3600));
    let err =
        verify_chirp_id_token(published(), &production_config(), &token, VerifyOptions::default())
            .unwrap_err();
    assert!(matches!(err, ChirpAuthError::EnvironmentMismatch), "got {err:?}");
}

#[test]
fn test_rp_accepts_test_token() {
    let (config, test_iss) = test_issuer_config();
    let token =
        make_signed_jwt(&good_header(), &human_test_claims(&test_iss, AUD, now_unix() + 3600));
    let verified = verify_chirp_id_token(published(), &config, &token, VerifyOptions::default())
        .expect("verify test token under test RP");
    assert_eq!(verified.environment, Environment::Test);
    assert!(matches!(verified.identity, ChirpVerifiedIdentity::Human { .. }));
}

#[test]
fn test_rp_rejects_non_test_token() {
    let (config, test_iss) = test_issuer_config();
    let token = make_signed_jwt(&good_header(), &good_claims(&test_iss, AUD, now_unix() + 3600));
    let err = verify_chirp_id_token(published(), &config, &token, VerifyOptions::default())
        .unwrap_err();
    assert!(matches!(err, ChirpAuthError::EnvironmentMismatch), "got {err:?}");
}

#[test]
fn accepts_non_test_token_by_default() {
    let token = make_signed_jwt(&good_header(), &good_claims(ISS, AUD, now_unix() + 3600));
    let identity =
        verify_chirp_id_token(published(), &production_config(), &token, VerifyOptions::default())
            .expect("verify non-test token");
    assert!(matches!(identity.identity, ChirpVerifiedIdentity::Human { .. }));
}

#[test]
fn env_enforced_accept_iff_environments_match() {
    for tenant in ["a", "acme", "0", "test", "z9z9z9z9z9z9z9z9"] {
        for use_test_issuer in [false, true] {
            for token_is_test in [false, true] {
                let issuer = if use_test_issuer {
                    format!("{ISS}/test/{tenant}")
                } else {
                    ISS.to_string()
                };
                let config = ChirpAuthConfig::new(&issuer, AUD);
                let expected_env = if use_test_issuer {
                    Environment::Test
                } else {
                    Environment::Production
                };
                let test_field = if token_is_test { r#","test":true"# } else { "" };
                let claims = format!(
                    r#"{{"iss":"{issuer}","sub":"sub_p","aud":"{AUD}","exp":{}{test_field}}}"#,
                    now_unix() + 3600,
                );
                let token = make_signed_jwt(&good_header(), &claims);
                let result =
                    verify_chirp_id_token(published(), &config, &token, VerifyOptions::default());
                assert_eq!(result.is_ok(), use_test_issuer == token_is_test);
                match result {
                    Ok(verified) => assert_eq!(verified.environment, expected_env),
                    Err(err) => {
                        assert!(matches!(err, ChirpAuthError::EnvironmentMismatch), "got {err:?}")
                    }
                }
            }
        }
    }
}

#[test]
fn segments_must_be_base64url() {
    let config = production_config();
    for token in ["!!.YQ.YQ", "YQ.!!.YQ", "YQ.YQ.!!", "YQ==.YQ.YQ", "YQ.Y+.YQ", "YQ.YQ.Y"] {
        assert!(matches!(
            AwaitingHeader::start(&config, token),
            Err(ChirpAuthError::MalformedToken)
        ));
    }
    let stage = AwaitingHeader::start(&config, "eyJhIjoxfQ.YmI.Yw").unwrap_or_else(|_| panic!());
    assert_eq!(stage.header_json(), br#"{"a":1}"#);
}

#[test]
fn unreadable_header_is_malformed() {
    let config = production_config();
    let stage = AwaitingHeader::start(&config, "YQ.YQ.YQ").unwrap_or_else(|_| panic!());
    assert!(matches!(stage.on_header(None), Err(ChirpAuthError::MalformedToken)));
}

#[test]
fn unreadable_claims_are_malformed() {
    let token = make_signed_jwt(&good_header(), "[]");
    let err =
        verify_chirp_id_token(published(), &production_config(), &token, VerifyOptions::default())
            .unwrap_err();
    assert!(matches!(err, ChirpAuthError::MalformedToken), "got {err:?}");
    let err = verify_rs256_jws(published(), &production_config(), &token, true).unwrap_err();
    assert!(matches!(err, ChirpAuthError::MalformedToken), "got {err:?}");
    // An array is no object, whatever was made of it.
    let config = production_config();
    let stage = authenticate(
        AwaitingHeader::start(&config, &token).unwrap_or_else(|_| panic!()),
        published(),
    )
    .unwrap_or_else(|_| panic!());
    let claims = parse_claims(good_claims(ISS, AUD, now_unix() + 3600).as_bytes());
    assert!(claims.is_some());
    assert!(matches!(stage.jws_at(claims, true, 0), Err(ChirpAuthError::MalformedToken)));
}

#[test]
fn failed_fetch_is_reported_with_its_message() {
    let token = make_signed_jwt(&good_header(), &good_claims(ISS, AUD, now_unix() + 3600));
    match verify_chirp_id_token(
        Err("connection refused".to_owned()),
        &production_config(),
        &token,
        VerifyOptions::default(),
    ) {
        Err(ChirpAuthError::JwksFetch(message)) => assert_eq!(message, "connection refused"),
        other => panic!("got {other:?}"),
    }
    assert!(matches!(
        keys_fetched(Err("gone".to_owned())),
        Err(ChirpAuthError::JwksFetch(message)) if message == "gone"
    ));
    assert_eq!(keys_fetched(published()).map(|jwks| jwks.keys.len()).ok(), Some(1));
}

#[test]
fn algorithm_is_refused_before_the_keys_are_fetched() {
    let header = format!(r#"{{"alg":"HS256","kid":"{KID}"}}"#);
    let token = make_signed_jwt(&header, &good_claims(ISS, AUD, now_unix() + 3600));
    let err = verify_chirp_id_token(
        Err("never asked".to_owned()),
        &production_config(),
        &token,
        VerifyOptions::default(),
    )
    .unwrap_err();
    assert!(matches!(err, ChirpAuthError::UnsupportedAlgorithm), "got {err:?}");
}

#[test]
fn keys_are_fetched_from_the_configured_address() {
    let config = production_config();
    let token = make_signed_jwt(&good_header(), "{}");
    let stage = AwaitingHeader::start(&config, &token).unwrap_or_else(|_| panic!());
    let header = parse_header(stage.header_json());
    let stage = stage.on_header(header).unwrap_or_else(|_| panic!());
    assert_eq!(stage.jwks_uri(), "https://signin.test.example/jwks.json");
}

#[test]
fn key_of_another_algorithm_or_type_is_refused() {
    let token = make_signed_jwt(&good_header(), &good_claims(ISS, AUD, now_unix() + 3600));
    let with = |key: Jwk| {
        verify_chirp_id_token(
            Ok(Jwks { keys: vec![key] }),
            &production_config(),
            &token,
            VerifyOptions::default(),
        )
    };
    assert!(matches!(
        with(Jwk { alg: Some("RS512".to_owned()), ..test_key() }),
        Err(ChirpAuthError::UnsupportedAlgorithm)
    ));
    assert!(with(Jwk { alg: None, ..test_key() }).is_ok());
    assert!(matches!(
        with(Jwk { kty: "EC".to_owned(), ..test_key() }),
        Err(ChirpAuthError::NoMatchingKey)
    ));
    assert!(matches!(
        with(Jwk { n: "not base64url!".to_owned(), ..test_key() }),
        Err(ChirpAuthError::SignatureInvalid)
    ));
    assert!(matches!(
        with(Jwk { e: "=".to_owned(), ..test_key() }),
        Err(ChirpAuthError::SignatureInvalid)
    ));
    assert!(matches!(
        with(Jwk { e: "Aw".to_owned(), ..test_key() }),
        Err(ChirpAuthError::SignatureInvalid)
    ));
}

#[test]
fn first_matching_key_is_the_one_that_counts() {
    let token = make_signed_jwt(&good_header(), &good_claims(ISS, AUD, now_unix() + 3600));
    let other_type = Jwk { kty: "EC".to_owned(), ..test_key() };
    let other_id = Jwk { kid: "test-kid-2".to_owned(), ..test_key() };
    let broken = Jwk { n: "AQAB".to_owned(), ..test_key() };
    let found = verify_chirp_id_token(
        Ok(Jwks { keys: vec![other_type, other_id, test_key(), broken.clone()] }),
        &production_config(),
        &token,
        VerifyOptions::default(),
    );
    assert!(found.is_ok());
    let shadowed = verify_chirp_id_token(
        Ok(Jwks { keys: vec![broken, test_key()] }),
        &production_config(),
        &token,
        VerifyOptions::default(),
    );
    assert!(matches!(shadowed, Err(ChirpAuthError::SignatureInvalid)));
}

#[test]
fn signature_is_over_header_and_claims() {
    let token = make_signed_jwt(&good_header(), &good_claims(ISS, AUD, now_unix() + 3600));
    let signature = token.rsplit_once('.').unwrap().1;
    let forged = format!(
        "{}.{}.{signature}",
        b64(&good_header()),
        b64(&good_claims(ISS, AUD, now_unix() + 7200)),
    );
    let err =
        verify_chirp_id_token(published(), &production_config(), &forged, VerifyOptions::default())
            .unwrap_err();
    assert!(matches!(err, ChirpAuthError::SignatureInvalid), "got {err:?}");
}

#[test]
fn id_token_is_accepted_as_a_jws() {
    let exp = now_unix() + 3600;
    let token = make_signed_jwt(&good_header(), &good_claims(ISS, AUD, exp));
    for validate_aud in [false, true] {
        let claims =
            verify_rs256_jws(published(), &production_config(), &token, validate_aud).unwrap();
        assert_eq!(claims.iss, ISS);
        assert_eq!(claims.sub, "sub_test");
        assert_eq!(claims.aud, vec![AUD.to_owned()]);
        assert_eq!(claims.exp, exp);
        assert_eq!(claims.raw.get("email").and_then(|v| v.as_str()), Some("u@example.test"));
    }
}

#[test]
fn jws_is_refused_for_issuer_audience_and_expiry() {
    let config = production_config();
    let wrong_issuer = make_signed_jwt(&good_header(), &good_claims("x", AUD, now_unix() + 3600));
    assert!(matches!(
        verify_rs256_jws(published(), &config, &wrong_issuer, false),
        Err(ChirpAuthError::ClaimMismatch)
    ));
    let wrong_audience = make_signed_jwt(&good_header(), &good_claims(ISS, "x", now_unix() + 3600));
    assert!(matches!(
        verify_rs256_jws(published(), &config, &wrong_audience, true),
        Err(ChirpAuthError::ClaimMismatch)
    ));
    let expired = make_signed_jwt(&good_header(), &good_claims(ISS, AUD, now_unix() - 1));
    assert!(matches!(
        verify_rs256_jws(published(), &config, &expired, true),
        Err(ChirpAuthError::Expired)
    ));
}

#[test]
fn clock_is_read_in_seconds_since_the_epoch() {
    // Accepted well before its expiry and refused well after it, by the clock.
    let near = make_signed_jwt(&good_header(), &good_claims(ISS, AUD, now_unix() + 600));
    assert!(verify_chirp_id_token(
        published(),
        &production_config(),
        &near,
        VerifyOptions::default()
    )
    .is_ok());
    let past = make_signed_jwt(&good_header(), &good_claims(ISS, AUD, now_unix() - 600));
    assert!(matches!(
        verify_chirp_id_token(published(), &production_config(), &past, VerifyOptions::default()),
        Err(ChirpAuthError::Expired)
    ));
}

#[test]
fn bearer_failure_comes_before_everything_else() {
    let mut headers = http::HeaderMap::new();
    headers.insert(
        http::header::AUTHORIZATION,
        http::HeaderValue::from_static("Bearer not-a-token"),
    );
    assert!(matches!(
        verify_from_headers(published(), &headers, &production_config(), VerifyOptions::default()),
        Err(ChirpAuthError::MalformedToken)
    ));
    headers.insert(http::header::AUTHORIZATION, http::HeaderValue::from_static("Basic abc"));
    assert!(matches!(
        verify_from_headers(published(), &headers, &production_config(), VerifyOptions::default()),
        Err(ChirpAuthError::MissingBearer)
    ));
}

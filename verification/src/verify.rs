//! Verification of a token, step by step.
//!
//! A token goes through three stages. Between them the caller does what is not
//! decided here: it parses JSON and fetches the published keys.
//!
//! 1. [`AwaitingHeader`]: the token is split and decoded, and its header is to be
//!    parsed.
//! 2. [`AwaitingKeys`]: the header names RS256, and the keys are to be fetched.
//! 3. [`AwaitingClaims`]: the signature is verified, and the claims are to be
//!    parsed and judged.
//!
//! A stage can only be reached through the one before it, so no claim is looked at
//! before the signature over it has been verified. All of them hold the same
//! config, so a token is judged by the issuer whose keys verified it.

use crate::config::{ChirpAuthConfig, ConfigView};
use crate::error::{AuthErrorView, ChirpAuthError};
use crate::identity::{
    ChirpClaims, ChirpVerifiedToken, Claims, ClaimsView, JwsClaimsView, VerifiedTokenView,
    VerifyOptions,
};
use crate::jwt::{DecodedToken, DecodedView, HeaderView, JwtHeader};
use crate::keys::{Jwks, JwkView};
use crate::{bearer, identity, jwt, keys, outside, text};
use vstd::prelude::*;

verus! {

/// A token whose header is to be parsed.
pub struct AwaitingHeader<'a> {
    config: &'a ChirpAuthConfig,
    token: DecodedToken,
}

/// What an [`AwaitingHeader`] holds.
pub struct AwaitingHeaderView {
    pub config: ConfigView,
    pub token: DecodedView,
}

impl View for AwaitingHeader<'_> {
    type V = AwaitingHeaderView;

    closed spec fn view(&self) -> AwaitingHeaderView {
        AwaitingHeaderView { config: self.config@, token: self.token@ }
    }
}

/// An RS256 token whose signature is to be verified under the published keys.
pub struct AwaitingKeys<'a> {
    config: &'a ChirpAuthConfig,
    token: DecodedToken,
    kid: String,
}

/// What an [`AwaitingKeys`] holds.
pub struct AwaitingKeysView {
    pub config: ConfigView,
    pub token: DecodedView,
    pub kid: Seq<char>,
}

impl View for AwaitingKeys<'_> {
    type V = AwaitingKeysView;

    closed spec fn view(&self) -> AwaitingKeysView {
        AwaitingKeysView { config: self.config@, token: self.token@, kid: self.kid@ }
    }
}

/// A token whose signature is verified, and whose claims are to be judged.
pub struct AwaitingClaims<'a> {
    config: &'a ChirpAuthConfig,
    claims: Vec<u8>,
}

/// What an [`AwaitingClaims`] holds.
pub struct AwaitingClaimsView {
    pub config: ConfigView,
    pub claims: Seq<u8>,
}

impl View for AwaitingClaims<'_> {
    type V = AwaitingClaimsView;

    closed spec fn view(&self) -> AwaitingClaimsView {
        AwaitingClaimsView { config: self.config@, claims: self.claims@ }
    }
}

/// The first stage of a token, which must have three segments of base64url.
pub open spec fn started(config: ConfigView, token: Seq<char>) -> Result<
    AwaitingHeaderView,
    AuthErrorView,
> {
    match jwt::decoded(token) {
        Some(decoded) => Ok(AwaitingHeaderView { config, token: decoded }),
        None => Err(AuthErrorView::MalformedToken),
    }
}

/// The first stage of the bearer token of a request.
pub open spec fn started_from_headers(config: ConfigView, headers: http::HeaderMap) -> Result<
    AwaitingHeaderView,
    AuthErrorView,
> {
    match bearer::bearer_in(headers) {
        Some(token) => started(config, token),
        None => Err(AuthErrorView::MissingBearer),
    }
}

impl AwaitingHeaderView {
    /// The second stage, given the header, if it could be parsed.
    pub open spec fn with_header(self, header: Option<HeaderView>) -> Result<
        AwaitingKeysView,
        AuthErrorView,
    > {
        match header {
            None => Err(AuthErrorView::MalformedToken),
            Some(header) => if header.alg != "RS256"@ {
                Err(AuthErrorView::UnsupportedAlgorithm)
            } else {
                Ok(AwaitingKeysView { config: self.config, token: self.token, kid: header.kid })
            },
        }
    }
}

impl AwaitingKeysView {
    /// The third stage, given the keyset, or why it could not be fetched.
    pub open spec fn with_keys(self, reply: Result<Seq<JwkView>, Seq<char>>) -> Result<
        AwaitingClaimsView,
        AuthErrorView,
    > {
        match keys::keyset(reply) {
            Err(error) => Err(error),
            Ok(keys) => match keys::signature_verdict(
                keys,
                self.kid,
                vstd::utf8::encode_utf8(self.token.signing_input),
                self.token.signature,
            ) {
                Err(error) => Err(error),
                Ok(_) => Ok(AwaitingClaimsView { config: self.config, claims: self.token.claims }),
            },
        }
    }
}

impl AwaitingClaimsView {
    /// The verdict on an ID token, given its claims, if they could be parsed.
    pub open spec fn id_token_verdict(
        self,
        claims: Option<ClaimsView>,
        options: VerifyOptions,
        now: i64,
    ) -> Result<VerifiedTokenView, AuthErrorView> {
        match claims {
            None => Err(AuthErrorView::MalformedToken),
            Some(claims) => identity::id_claims_verdict(self.config, claims, options, now),
        }
    }

    /// The verdict on a JWS, given its claims, if they could be parsed.
    pub open spec fn jws_verdict(
        self,
        claims: Option<ClaimsView>,
        validate_aud: bool,
        now: i64,
    ) -> Result<JwsClaimsView, AuthErrorView> {
        jws_verdict_on(self.config, outside::json_object(self.claims), claims, validate_aud, now)
    }
}

/// The verdict on a JWS whose signature has been verified, given all of its claims
/// and the standard ones, if they could be parsed.
pub open spec fn jws_verdict_on(
    config: ConfigView,
    raw: Option<serde_json::Map<String, serde_json::Value>>,
    claims: Option<ClaimsView>,
    validate_aud: bool,
    now: i64,
) -> Result<JwsClaimsView, AuthErrorView> {
    match (raw, claims) {
        (Some(raw), Some(claims)) => identity::jws_claims_verdict(
            config,
            claims,
            raw,
            validate_aud,
            now,
        ),
        _ => Err(AuthErrorView::MalformedToken),
    }
}

/// The token after its signature has been verified: all stages but the last.
pub open spec fn authenticated(
    config: ConfigView,
    token: Seq<char>,
    header: Option<HeaderView>,
    reply: Result<Seq<JwkView>, Seq<char>>,
) -> Result<AwaitingClaimsView, AuthErrorView> {
    match started(config, token) {
        Err(error) => Err(error),
        Ok(first) => match first.with_header(header) {
            Err(error) => Err(error),
            Ok(second) => second.with_keys(reply),
        },
    }
}

/// The verdict on an ID token, given what its header and claims were parsed to,
/// what fetching the keys gave, and the time.
pub open spec fn id_token_verdict(
    config: ConfigView,
    token: Seq<char>,
    header: Option<HeaderView>,
    reply: Result<Seq<JwkView>, Seq<char>>,
    claims: Option<ClaimsView>,
    options: VerifyOptions,
    now: i64,
) -> Result<VerifiedTokenView, AuthErrorView> {
    match authenticated(config, token, header, reply) {
        Err(error) => Err(error),
        Ok(last) => last.id_token_verdict(claims, options, now),
    }
}

/// The verdict on a JWS, given what its header and claims were parsed to, what
/// fetching the keys gave, and the time.
pub open spec fn jws_verdict(
    config: ConfigView,
    token: Seq<char>,
    header: Option<HeaderView>,
    reply: Result<Seq<JwkView>, Seq<char>>,
    claims: Option<ClaimsView>,
    validate_aud: bool,
    now: i64,
) -> Result<JwsClaimsView, AuthErrorView> {
    match authenticated(config, token, header, reply) {
        Err(error) => Err(error),
        Ok(last) => last.jws_verdict(claims, validate_aud, now),
    }
}

/// What an optional header says.
pub open spec fn header_view(header: Option<JwtHeader>) -> Option<HeaderView> {
    match header {
        Some(header) => Some(header@),
        None => None,
    }
}

/// What optional claims say.
pub open spec fn claims_view(claims: Option<ChirpClaims>) -> Option<ClaimsView> {
    match claims {
        Some(claims) => Some(claims@),
        None => None,
    }
}

impl<'a> AwaitingHeader<'a> {
    /// Starts to verify a token.
    pub fn start(config: &'a ChirpAuthConfig, token: &str) -> (r: Result<
        AwaitingHeader<'a>,
        ChirpAuthError,
    >)
        ensures
            crate::error::result_view(r) == started(config@, token@),
    {
        match jwt::decode_token(token) {
            Ok(token) => Ok(AwaitingHeader { config, token }),
            Err(error) => Err(error),
        }
    }

    /// Starts to verify the bearer token of a request.
    pub fn start_from_headers(config: &'a ChirpAuthConfig, headers: &http::HeaderMap) -> (r: Result<
        AwaitingHeader<'a>,
        ChirpAuthError,
    >)
        ensures
            crate::error::result_view(r) == started_from_headers(config@, *headers),
    {
        match bearer::bearer_token(headers) {
            Some(token) => Self::start(config, token),
            None => Err(ChirpAuthError::MissingBearer),
        }
    }

    /// The JSON text to be parsed as a [`JwtHeader`].
    pub fn header_json(&self) -> (r: &[u8])
        ensures
            r@ == self@.token.header,
    {
        self.token.header.as_slice()
    }

    /// Goes on with the parsed header, or with `None` when it could not be parsed.
    pub fn on_header(self, header: Option<JwtHeader>) -> (r: Result<
        AwaitingKeys<'a>,
        ChirpAuthError,
    >)
        ensures
            crate::error::result_view(r) == self@.with_header(header_view(header)),
    {
        match header {
            None => Err(ChirpAuthError::MalformedToken),
            Some(header) => {
                if !text::same_text(header.alg.as_str(), "RS256") {
                    return Err(ChirpAuthError::UnsupportedAlgorithm);
                }
                Ok(AwaitingKeys { config: self.config, token: self.token, kid: header.kid })
            },
        }
    }
}

impl<'a> AwaitingKeys<'a> {
    /// Where the keys are to be fetched from.
    pub fn jwks_uri(&self) -> (r: &str)
        ensures
            r@ == self@.config.jwks_uri,
    {
        self.config.jwks_uri()
    }

    /// Goes on with the fetched keys, or with why they could not be fetched.
    pub fn on_keys(self, reply: Result<Jwks, String>) -> (r: Result<
        AwaitingClaims<'a>,
        ChirpAuthError,
    >)
        ensures
            crate::error::result_view(r) == self@.with_keys(keys::reply_view(reply)),
    {
        let jwks = match keys::keys_fetched(reply) {
            Ok(jwks) => jwks,
            Err(error) => return Err(error),
        };
        match keys::check_signature(
            &jwks,
            self.kid.as_str(),
            self.token.signing_input.as_str().as_bytes(),
            self.token.signature.as_slice(),
        ) {
            Ok(_) => Ok(AwaitingClaims { config: self.config, claims: self.token.claims }),
            Err(error) => Err(error),
        }
    }
}

/// Judges a JWS whose signature has been verified.
pub fn judge_jws(
    config: &ChirpAuthConfig,
    raw: Option<serde_json::Map<String, serde_json::Value>>,
    claims: Option<ChirpClaims>,
    validate_aud: bool,
    now: i64,
) -> (r: Result<Claims, ChirpAuthError>)
    ensures
        crate::error::result_view(r) == jws_verdict_on(config@, raw, claims_view(claims), validate_aud, now),
{
    match (raw, claims) {
        (Some(raw), Some(claims)) => identity::accept_jws_claims(
            config,
            claims,
            raw,
            validate_aud,
            now,
        ),
        _ => Err(ChirpAuthError::MalformedToken),
    }
}

/// Whether `now` is what a reading of the clock gave: the result of a call of
/// [`outside::unix_now`].
pub closed spec fn clock_reads(now: i64) -> bool {
    call_ensures(outside::unix_now, (), now)
}

/// The clock is read by calls of [`outside::unix_now`] and in no other way.
pub(crate) proof fn law_readings_come_from_the_clock(now: i64)
    ensures
        clock_reads(now) <==> call_ensures(outside::unix_now, (), now),
{
}

impl AwaitingClaims<'_> {
    /// The JSON text to be parsed as [`ChirpClaims`].
    pub fn claims_json(&self) -> (r: &[u8])
        ensures
            r@ == self@.claims,
    {
        self.claims.as_slice()
    }

    /// Judges the claims of an ID token at the given number of seconds since the
    /// Unix epoch. They are `None` when they could not be parsed.
    pub fn id_token_at(
        self,
        claims: Option<ChirpClaims>,
        options: &VerifyOptions,
        now: i64,
    ) -> (r: Result<ChirpVerifiedToken, ChirpAuthError>)
        ensures
            crate::error::result_view(r) == self@.id_token_verdict(claims_view(claims), *options, now),
    {
        match claims {
            Some(claims) => identity::accept_id_claims(self.config, claims, options, now),
            None => Err(ChirpAuthError::MalformedToken),
        }
    }

    /// Judges the claims of an ID token at the time that the clock reads. No token
    /// is accepted at or past its expiry by that reading, whatever the options.
    pub fn id_token(self, claims: Option<ChirpClaims>, options: &VerifyOptions) -> (r: Result<
        ChirpVerifiedToken,
        ChirpAuthError,
    >)
        ensures
            exists|now: i64|
                clock_reads(now) && crate::error::result_view(r)
                    == #[trigger] self@.id_token_verdict(claims_view(claims), *options, now) && (
                r is Ok ==> claims is Some && claims->0.exp > now) && (r matches Err(
                    ChirpAuthError::Expired,
                ) ==> claims is Some && claims->0.exp <= now),
    {
        self.id_token_at(claims, options, outside::unix_now())
    }

    /// Judges the claims of a JWS at the given number of seconds since the Unix
    /// epoch. They are `None` when they could not be parsed.
    pub fn jws_at(self, claims: Option<ChirpClaims>, validate_aud: bool, now: i64) -> (r: Result<
        Claims,
        ChirpAuthError,
    >)
        ensures
            crate::error::result_view(r) == self@.jws_verdict(claims_view(claims), validate_aud, now),
    {
        let raw = match outside::json_object_from_slice(self.claims.as_slice()) {
            Ok(object) => Some(object),
            Err(_) => None,
        };
        judge_jws(self.config, raw, claims, validate_aud, now)
    }

    /// Judges the claims of a JWS at the time that the clock reads. No JWS is
    /// accepted at or past its expiry by that reading.
    pub fn jws(self, claims: Option<ChirpClaims>, validate_aud: bool) -> (r: Result<
        Claims,
        ChirpAuthError,
    >)
        ensures
            exists|now: i64|
                clock_reads(now) && crate::error::result_view(r)
                    == #[trigger] self@.jws_verdict(claims_view(claims), validate_aud, now) && (
                r is Ok ==> claims is Some && claims->0.exp > now) && (r matches Err(
                    ChirpAuthError::Expired,
                ) ==> claims is Some && claims->0.exp <= now),
    {
        self.jws_at(claims, validate_aud, outside::unix_now())
    }
}

} // verus!

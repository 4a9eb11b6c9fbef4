//! Claims, and the identity that they are accepted as.
//!
//! ChirpAuth issues two shapes of token under the same JWKS:
//!
//! - **Human** tokens may carry `email` / `name` claims and have no `act` claim.
//! - **Machine** tokens carry `act: "machine"` and `owner_sub` (the human
//!   responsible for the client), and address a single audience.

use crate::audience;
use crate::audience::{AudienceClaim, AudienceClaimView};
use crate::config::{ChirpAuthConfig, ConfigView, Environment};
use crate::error::{AuthErrorView, ChirpAuthError};
use crate::keys;
use crate::text;
use vstd::prelude::*;

verus! {

/// The claims of an ID token.
#[derive(Clone, Debug)]
pub struct ChirpClaims {
    pub iss: String,
    pub sub: String,
    pub aud: AudienceClaim,
    pub exp: i64,
    pub act: Option<String>,
    pub owner_sub: Option<String>,
    pub email: Option<String>,
    pub name: Option<String>,
    pub root_sub: Option<String>,
    pub test: Option<bool>,
}

/// What a [`ChirpClaims`] says.
pub struct ClaimsView {
    pub iss: Seq<char>,
    pub sub: Seq<char>,
    pub aud: AudienceClaimView,
    pub exp: i64,
    pub act: Option<Seq<char>>,
    pub owner_sub: Option<Seq<char>>,
    pub email: Option<Seq<char>>,
    pub name: Option<Seq<char>>,
    pub root_sub: Option<Seq<char>>,
    pub test: Option<bool>,
}

impl View for ChirpClaims {
    type V = ClaimsView;

    open spec fn view(&self) -> ClaimsView {
        ClaimsView {
            iss: self.iss@,
            sub: self.sub@,
            aud: self.aud@,
            exp: self.exp,
            act: keys::optional_text(self.act),
            owner_sub: keys::optional_text(self.owner_sub),
            email: keys::optional_text(self.email),
            name: keys::optional_text(self.name),
            root_sub: keys::optional_text(self.root_sub),
            test: self.test,
        }
    }
}

/// The verified identity extracted from a ChirpAuth ID token.
///
/// Dispatch is keyed by the `act` claim:
///
/// - `act == "machine"`: [`ChirpVerifiedIdentity::Machine`]. `owner_sub` is the
///   human responsible for the confidential client. `client_id` is the token's
///   only audience.
/// - otherwise: [`ChirpVerifiedIdentity::Human`]. `email` / `name` come through
///   from token claims when present; emptiness is normalised to `None`.
///
/// `sub` is always non-empty, ≤ 128 chars, and free of control characters.
#[derive(Clone, Debug)]
pub enum ChirpVerifiedIdentity {
    Human {
        sub: String,
        email: Option<String>,
        name: Option<String>,
        /// The root identity behind `sub`, which is `sub` itself when the claim
        /// is absent. Relying parties doing anti-evasion moderation should key on
        /// this rather than on `sub`.
        root_sub: String,
    },
    Machine { sub: String, owner_sub: String, client_id: String },
}

/// What a [`ChirpVerifiedIdentity`] says.
pub enum IdentityView {
    Human {
        sub: Seq<char>,
        email: Option<Seq<char>>,
        name: Option<Seq<char>>,
        root_sub: Seq<char>,
    },
    Machine { sub: Seq<char>, owner_sub: Seq<char>, client_id: Seq<char> },
}

impl IdentityView {
    /// The subject, regardless of variant.
    pub open spec fn sub(self) -> Seq<char> {
        match self {
            IdentityView::Human { sub, email: _, name: _, root_sub: _ } => sub,
            IdentityView::Machine { sub, owner_sub: _, client_id: _ } => sub,
        }
    }
}

impl View for ChirpVerifiedIdentity {
    type V = IdentityView;

    open spec fn view(&self) -> IdentityView {
        match self {
            ChirpVerifiedIdentity::Human { sub, email, name, root_sub } => IdentityView::Human {
                sub: sub@,
                email: keys::optional_text(*email),
                name: keys::optional_text(*name),
                root_sub: root_sub@,
            },
            ChirpVerifiedIdentity::Machine { sub, owner_sub, client_id } => IdentityView::Machine {
                sub: sub@,
                owner_sub: owner_sub@,
                client_id: client_id@,
            },
        }
    }
}

impl ChirpVerifiedIdentity {
    /// The token's `sub` claim regardless of variant.
    pub fn sub(&self) -> (r: &str)
        ensures
            r@ == self@.sub(),
    {
        match self {
            ChirpVerifiedIdentity::Human { sub, .. } => sub.as_str(),
            ChirpVerifiedIdentity::Machine { sub, .. } => sub.as_str(),
        }
    }
}

/// A verified token: its [`Environment`] (which keyset verified it) alongside the
/// [`ChirpVerifiedIdentity`] (the `Human`/`Machine` principal).
#[derive(Clone, Debug)]
pub struct ChirpVerifiedToken {
    pub environment: Environment,
    pub identity: ChirpVerifiedIdentity,
}

/// What a [`ChirpVerifiedToken`] says.
pub struct VerifiedTokenView {
    pub environment: Environment,
    pub identity: IdentityView,
}

impl View for ChirpVerifiedToken {
    type V = VerifiedTokenView;

    open spec fn view(&self) -> VerifiedTokenView {
        VerifiedTokenView { environment: self.environment, identity: self.identity@ }
    }
}

/// Per-call knobs for the verification of an ID token.
///
/// Defaults to human-only acceptance. Construct via
/// `VerifyOptions { accept_machine: true, ..Default::default() }`.
#[derive(Clone, Debug)]
pub struct VerifyOptions {
    /// When `true`, a human token with a missing or empty `email` claim is
    /// rejected with [`ChirpAuthError::EmailRequired`]. No effect on machine
    /// tokens (which never carry `email`).
    pub require_email: bool,
    /// When `true`, accept machine tokens (`act == "machine"`) in addition to
    /// human tokens. Default `false`.
    pub accept_machine: bool,
    /// Deprecated no-op: test acceptance is derived from the environment of the
    /// configured issuer.
    pub accept_test: bool,
}

impl Default for VerifyOptions {
    fn default() -> (r: VerifyOptions)
        ensures
            !r.require_email,
            !r.accept_machine,
            !r.accept_test,
    {
        VerifyOptions { require_email: false, accept_machine: false, accept_test: false }
    }
}

/// The environment that a token says it comes from.
pub open spec fn token_environment(claims: ClaimsView) -> Environment {
    if claims.test == Some(true) {
        Environment::Test
    } else {
        Environment::Production
    }
}

/// A subject is non-empty, at most 128 characters long, and free of control
/// characters.
pub open spec fn is_subject(sub: Seq<char>) -> bool {
    &&& 0 < sub.len() <= 128
    &&& forall|i: int| 0 <= i < sub.len() ==> !text::is_control(#[trigger] sub[i])
}

/// An optional claim without surrounding whitespace, if anything is left of it.
pub open spec fn non_blank(claim: Option<Seq<char>>) -> Option<Seq<char>> {
    match claim {
        Some(value) => if text::trim(value).len() > 0 {
            Some(text::trim(value))
        } else {
            None
        },
        None => None,
    }
}

/// The issuer must be exactly the configured one, at least one audience must be
/// allowed (where that is asked for), and the expiry must lie in the future.
pub open spec fn standard_verdict(
    config: ConfigView,
    claims: ClaimsView,
    validate_aud: bool,
    now: i64,
) -> Result<(), AuthErrorView> {
    if claims.iss != config.issuer {
        Err(AuthErrorView::ClaimMismatch)
    } else if validate_aud && !claims.aud.matches_any(config.accepted_audiences) {
        Err(AuthErrorView::ClaimMismatch)
    } else if claims.exp <= now {
        Err(AuthErrorView::Expired)
    } else {
        Ok(())
    }
}

/// The machine that a machine token stands for.
pub open spec fn machine_verdict(sub: Seq<char>, claims: ClaimsView, options: VerifyOptions) -> Result<
    IdentityView,
    AuthErrorView,
> {
    if !options.accept_machine {
        Err(AuthErrorView::MachineNotAllowed)
    } else {
        match (non_blank(claims.owner_sub), claims.aud.single()) {
            (Some(owner_sub), Some(client_id)) => Ok(
                IdentityView::Machine { sub, owner_sub, client_id },
            ),
            _ => Err(AuthErrorView::MalformedMachineToken),
        }
    }
}

/// The human that a human token stands for.
pub open spec fn human_verdict(sub: Seq<char>, claims: ClaimsView, options: VerifyOptions) -> Result<
    IdentityView,
    AuthErrorView,
> {
    if options.require_email && non_blank(claims.email) is None {
        Err(AuthErrorView::EmailRequired)
    } else {
        Ok(
            IdentityView::Human {
                sub,
                email: non_blank(claims.email),
                name: non_blank(claims.name),
                root_sub: match non_blank(claims.root_sub) {
                    Some(root_sub) => root_sub,
                    None => sub,
                },
            },
        )
    }
}

/// The principal that a token stands for.
pub open spec fn principal_verdict(claims: ClaimsView, options: VerifyOptions) -> Result<
    IdentityView,
    AuthErrorView,
> {
    let sub = text::trim(claims.sub);
    if !is_subject(sub) {
        Err(AuthErrorView::InvalidSubject)
    } else if claims.act == Some("machine"@) {
        machine_verdict(sub, claims, options)
    } else {
        human_verdict(sub, claims, options)
    }
}

/// The verdict on the claims of an ID token whose signature has been verified:
/// first the standard claims, then the environment, then the principal.
pub open spec fn id_claims_verdict(
    config: ConfigView,
    claims: ClaimsView,
    options: VerifyOptions,
    now: i64,
) -> Result<VerifiedTokenView, AuthErrorView> {
    match standard_verdict(config, claims, true, now) {
        Err(error) => Err(error),
        Ok(_) => if token_environment(claims) != config.environment() {
            Err(AuthErrorView::EnvironmentMismatch)
        } else {
            match principal_verdict(claims, options) {
                Err(error) => Err(error),
                Ok(identity) => Ok(
                    VerifiedTokenView { environment: config.environment(), identity },
                ),
            }
        },
    }
}

/// Checks the issuer, the audience and the expiry.
pub fn check_standard_claims(
    config: &ChirpAuthConfig,
    claims: &ChirpClaims,
    validate_aud: bool,
    now: i64,
) -> (r: Result<(), ChirpAuthError>)
    ensures
        match r {
            Ok(_) => standard_verdict(config@, claims@, validate_aud, now) is Ok,
            Err(error) => standard_verdict(config@, claims@, validate_aud, now) == Err::<
                (),
                AuthErrorView,
            >(error@),
        },
{
    if !text::same_text(claims.iss.as_str(), config.issuer()) {
        return Err(ChirpAuthError::ClaimMismatch);
    }
    if validate_aud && !claims.aud.matches_any(config.accepted_audiences()) {
        return Err(ChirpAuthError::ClaimMismatch);
    }
    if claims.exp <= now {
        return Err(ChirpAuthError::Expired);
    }
    Ok(())
}

fn trimmed_non_blank(claim: &Option<String>) -> (r: Option<String>)
    ensures
        keys::optional_text(r) == non_blank(keys::optional_text(*claim)),
{
    match claim {
        Some(value) => {
            let trimmed = text::trim_str(value.as_str());
            if trimmed.is_empty() {
                None
            } else {
                Some(trimmed.to_owned())
            }
        },
        None => None,
    }
}

fn subject_is_valid(sub: &str) -> (r: bool)
    ensures
        r == is_subject(sub@),
{
    let chars = text::chars_of(sub);
    if chars.len() == 0 || chars.len() > 128 {
        return false;
    }
    let mut i: usize = 0;
    while i < chars.len()
        invariant
            i <= chars.len(),
            chars@ == sub@,
            forall|j: int| 0 <= j < i ==> !text::is_control(#[trigger] sub@[j]),
        decreases chars.len() - i,
    {
        if text::char_is_control(chars[i]) {
            assert(text::is_control(sub@[i as int]));
            return false;
        }
        i += 1;
    }
    true
}

fn machine_principal(sub: String, claims: ChirpClaims, options: &VerifyOptions) -> (r: Result<
    ChirpVerifiedIdentity,
    ChirpAuthError,
>)
    ensures
        crate::error::result_view(r) == machine_verdict(sub@, claims@, *options),
{
    if !options.accept_machine {
        return Err(ChirpAuthError::MachineNotAllowed);
    }
    let owner_sub = match trimmed_non_blank(&claims.owner_sub) {
        Some(owner_sub) => owner_sub,
        None => return Err(ChirpAuthError::MalformedMachineToken),
    };
    // Machine tokens must address a single client: the one that minted them.
    match claims.aud.single() {
        Some(client_id) => Ok(
            ChirpVerifiedIdentity::Machine { sub, owner_sub, client_id: client_id.to_owned() },
        ),
        None => Err(ChirpAuthError::MalformedMachineToken),
    }
}

fn human_principal(sub: String, claims: ChirpClaims, options: &VerifyOptions) -> (r: Result<
    ChirpVerifiedIdentity,
    ChirpAuthError,
>)
    ensures
        crate::error::result_view(r) == human_verdict(sub@, claims@, *options),
{
    let email = trimmed_non_blank(&claims.email);
    if options.require_email && email.is_none() {
        return Err(ChirpAuthError::EmailRequired);
    }
    let name = trimmed_non_blank(&claims.name);
    // Tokens minted before the `root_sub` claim existed have a single persona, so
    // the root identity is the subject itself.
    let root_sub = match trimmed_non_blank(&claims.root_sub) {
        Some(root_sub) => root_sub,
        None => sub.clone(),
    };
    Ok(ChirpVerifiedIdentity::Human { sub, email, name, root_sub })
}

/// Extracts the principal that a token stands for.
pub fn principal_of(claims: ChirpClaims, options: &VerifyOptions) -> (r: Result<
    ChirpVerifiedIdentity,
    ChirpAuthError,
>)
    ensures
        crate::error::result_view(r) == principal_verdict(claims@, *options),
{
    let sub = text::trim_str(claims.sub.as_str()).to_owned();
    if !subject_is_valid(sub.as_str()) {
        return Err(ChirpAuthError::InvalidSubject);
    }
    let is_machine = match &claims.act {
        Some(act) => text::same_text(act.as_str(), "machine"),
        None => false,
    };
    if is_machine {
        machine_principal(sub, claims, options)
    } else {
        human_principal(sub, claims, options)
    }
}

/// Judges the claims of an ID token whose signature has been verified, at the
/// given number of seconds since the Unix epoch.
pub fn accept_id_claims(
    config: &ChirpAuthConfig,
    claims: ChirpClaims,
    options: &VerifyOptions,
    now: i64,
) -> (r: Result<ChirpVerifiedToken, ChirpAuthError>)
    ensures
        crate::error::result_view(r) == id_claims_verdict(config@, claims@, *options, now),
{
    match check_standard_claims(config, &claims, true, now) {
        Ok(_) => {},
        Err(error) => return Err(error),
    }
    // The environment is fixed by the configured issuer, and the token's own
    // `test` claim must agree with it.
    let environment = config.environment();
    let claimed = match claims.test {
        Some(true) => Environment::Test,
        _ => Environment::Production,
    };
    if claimed != environment {
        return Err(ChirpAuthError::EnvironmentMismatch);
    }
    match principal_of(claims, options) {
        Ok(identity) => Ok(ChirpVerifiedToken { environment, identity }),
        Err(error) => Err(error),
    }
}

/// A verified RS256 JWS payload: the decoded claims after the signature, `iss`,
/// `exp`, and (optionally) `aud` checks pass.
#[derive(Debug)]
pub struct Claims {
    pub iss: String,
    pub sub: String,
    pub aud: Vec<String>,
    pub exp: i64,
    /// The raw JSON object of all claims, for callers that need claims beyond the
    /// standard set (e.g. a key-binding cert's embedded public key).
    pub raw: serde_json::Map<String, serde_json::Value>,
}

/// What a [`Claims`] says.
pub struct JwsClaimsView {
    pub iss: Seq<char>,
    pub sub: Seq<char>,
    pub aud: Seq<Seq<char>>,
    pub exp: i64,
    pub raw: serde_json::Map<String, serde_json::Value>,
}

impl View for Claims {
    type V = JwsClaimsView;

    open spec fn view(&self) -> JwsClaimsView {
        JwsClaimsView {
            iss: self.iss@,
            sub: self.sub@,
            aud: audience::texts(self.aud@),
            exp: self.exp,
            raw: self.raw,
        }
    }
}

impl Clone for Claims {
    fn clone(&self) -> (r: Claims)
        ensures
            r@ == self@,
    {
        let aud = self.aud.clone();
        assert(audience::texts(aud@) =~= audience::texts(self.aud@));
        Claims {
            iss: self.iss.clone(),
            sub: self.sub.clone(),
            aud,
            exp: self.exp,
            raw: self.raw.clone(),
        }
    }
}

/// The verdict on the claims of a JWS whose signature has been verified.
pub open spec fn jws_claims_verdict(
    config: ConfigView,
    claims: ClaimsView,
    raw: serde_json::Map<String, serde_json::Value>,
    validate_aud: bool,
    now: i64,
) -> Result<JwsClaimsView, AuthErrorView> {
    match standard_verdict(config, claims, validate_aud, now) {
        Err(error) => Err(error),
        Ok(_) => Ok(
            JwsClaimsView {
                iss: claims.iss,
                sub: claims.sub,
                aud: claims.aud.values(),
                exp: claims.exp,
                raw,
            },
        ),
    }
}

/// Judges the claims of a JWS whose signature has been verified, at the given
/// number of seconds since the Unix epoch. Applies no machine or test policy.
pub fn accept_jws_claims(
    config: &ChirpAuthConfig,
    claims: ChirpClaims,
    raw: serde_json::Map<String, serde_json::Value>,
    validate_aud: bool,
    now: i64,
) -> (r: Result<Claims, ChirpAuthError>)
    ensures
        crate::error::result_view(r) == jws_claims_verdict(config@, claims@, raw, validate_aud, now),
{
    match check_standard_claims(config, &claims, validate_aud, now) {
        Ok(_) => {},
        Err(error) => return Err(error),
    }
    Ok(
        Claims {
            iss: claims.iss,
            sub: claims.sub,
            aud: claims.aud.into_values(),
            exp: claims.exp,
            raw,
        },
    )
}

} // verus!

//! What is read off the types that callers hand in and get back: every field shows
//! what it holds, under its own name.

use crate::audience::{AudienceClaim, AudienceClaimView};
use crate::error::{AuthErrorView, ChirpAuthError};
use crate::identity::{
    ChirpClaims, ChirpVerifiedIdentity, ChirpVerifiedToken, Claims,
};
use crate::jwt::{DecodedToken, JwtHeader, JwtParts};
use crate::keys::{Jwk, Jwks};
use crate::{audience, jwt, keys, verify};
use vstd::prelude::*;

verus! {

/// Whether an optional text shows what an optional string holds.
pub open spec fn shows(shown: Option<Seq<char>>, held: Option<String>) -> bool {
    match held {
        Some(text) => shown is Some && shown->0 == text@,
        None => shown is None,
    }
}

/// Whether texts show what strings hold, one by one.
pub open spec fn shows_all(shown: Seq<Seq<char>>, held: Seq<String>) -> bool {
    &&& shown.len() == held.len()
    &&& forall|i: int| 0 <= i < held.len() ==> #[trigger] shown[i] == held[i]@
}

/// Optional and listed strings and bytes show what they hold.
pub proof fn law_texts_show_what_they_hold(
    optional: Option<String>,
    listed: Seq<String>,
    bytes: Option<Vec<u8>>,
)
    ensures
        shows(keys::optional_text(optional), optional),
        shows_all(audience::texts(listed), listed),
        match bytes {
            Some(held) => jwt::optional_bytes(bytes) == Some(held@),
            None => jwt::optional_bytes(bytes) is None,
        },
{
}

/// Claims show what they hold.
pub proof fn law_claims_show_what_they_hold(claims: ChirpClaims)
    ensures
        claims@.iss == claims.iss@,
        claims@.sub == claims.sub@,
        claims.aud matches AudienceClaim::One(held) ==> claims@.aud == AudienceClaimView::One(
            held@,
        ),
        claims.aud matches AudienceClaim::Many(held) ==> (claims@.aud matches AudienceClaimView::Many(
            shown,
        ) && shows_all(shown, held@)),
        claims@.exp == claims.exp,
        shows(claims@.act, claims.act),
        shows(claims@.owner_sub, claims.owner_sub),
        shows(claims@.email, claims.email),
        shows(claims@.name, claims.name),
        shows(claims@.root_sub, claims.root_sub),
        claims@.test == claims.test,
{
}

/// An `aud` claim shows what it holds.
pub proof fn law_audiences_show_what_they_hold(claim: AudienceClaim)
    ensures
        match claim {
            AudienceClaim::One(held) => claim@ == AudienceClaimView::One(held@),
            AudienceClaim::Many(held) => claim@ matches AudienceClaimView::Many(shown)
                && shows_all(shown, held@),
        },
{
}

/// An identity shows what it holds.
pub proof fn law_identities_show_what_they_hold(identity: ChirpVerifiedIdentity)
    ensures
        match identity {
            ChirpVerifiedIdentity::Human { sub, email, name, root_sub } => {
                &&& identity@ is Human
                &&& identity@->Human_sub == sub@
                &&& shows(identity@->email, email)
                &&& shows(identity@->name, name)
                &&& identity@->root_sub == root_sub@
                &&& identity@.sub() == sub@
            },
            ChirpVerifiedIdentity::Machine { sub, owner_sub, client_id } => {
                &&& identity@ is Machine
                &&& identity@->Machine_sub == sub@
                &&& identity@->owner_sub == owner_sub@
                &&& identity@->client_id == client_id@
                &&& identity@.sub() == sub@
            },
        },
{
}

/// A verified token shows what it holds.
pub proof fn law_tokens_show_what_they_hold(token: ChirpVerifiedToken)
    ensures
        token@.environment == token.environment,
        token@.identity == token.identity@,
{
}

/// The claims of a JWS show what they hold.
pub proof fn law_jws_claims_show_what_they_hold(claims: Claims)
    ensures
        claims@.iss == claims.iss@,
        claims@.sub == claims.sub@,
        shows_all(claims@.aud, claims.aud@),
        claims@.exp == claims.exp,
        claims@.raw == claims.raw,
{
}

/// Headers, parts of a token and decoded tokens show what they hold.
pub proof fn law_segments_show_what_they_hold(
    header: JwtHeader,
    parts: JwtParts<'_>,
    token: DecodedToken,
)
    ensures
        header@.alg == header.alg@,
        header@.kid == header.kid@,
        parts@.header == parts.header@,
        parts@.claims == parts.claims@,
        parts@.signature == parts.signature@,
        parts@.signing_input == parts.signing_input@,
        token@.header == token.header@,
        token@.claims == token.claims@,
        token@.signature == token.signature@,
        token@.signing_input == token.signing_input@,
{
}

/// Keys and keysets show what they hold, key by key.
pub proof fn law_keys_show_what_they_hold(key: Jwk, jwks: Jwks)
    ensures
        key@.kty == key.kty@,
        key@.kid == key.kid@,
        shows(key@.alg, key.alg),
        key@.n == key.n@,
        key@.e == key.e@,
        jwks@.len() == jwks.keys@.len(),
        forall|i: int| 0 <= i < jwks@.len() ==> #[trigger] jwks@[i] == jwks.keys@[i]@,
{
}

/// Every reason shows as itself, and a failed fetch with its message.
pub proof fn law_reasons_show_as_themselves(reason: ChirpAuthError)
    ensures
        match reason {
            ChirpAuthError::MalformedToken => reason@ is MalformedToken,
            ChirpAuthError::UnsupportedAlgorithm => reason@ is UnsupportedAlgorithm,
            ChirpAuthError::JwksFetch(message) => reason@ == AuthErrorView::JwksFetch(message@),
            ChirpAuthError::NoMatchingKey => reason@ is NoMatchingKey,
            ChirpAuthError::SignatureInvalid => reason@ is SignatureInvalid,
            ChirpAuthError::ClaimMismatch => reason@ is ClaimMismatch,
            ChirpAuthError::Expired => reason@ is Expired,
            ChirpAuthError::InvalidSubject => reason@ is InvalidSubject,
            ChirpAuthError::EmailRequired => reason@ is EmailRequired,
            ChirpAuthError::MachineNotAllowed => reason@ is MachineNotAllowed,
            ChirpAuthError::MalformedMachineToken => reason@ is MalformedMachineToken,
            ChirpAuthError::EnvironmentMismatch => reason@ is EnvironmentMismatch,
            ChirpAuthError::MissingBearer => reason@ is MissingBearer,
            ChirpAuthError::TestTokenRejected => reason@ is TestTokenRejected,
        },
{
}

/// A result shows its value or its reason.
pub proof fn law_results_show_what_they_hold<T: View>(result: Result<T, ChirpAuthError>)
    ensures
        match result {
            Ok(value) => crate::error::result_view(result) == Ok::<T::V, AuthErrorView>(value@),
            Err(reason) => crate::error::result_view(result) == Err::<T::V, AuthErrorView>(reason@),
        },
{
}

/// What the caller brings between the stages is taken as it is.
pub proof fn law_replies_show_what_they_hold(
    header: Option<JwtHeader>,
    reply: Result<Jwks, String>,
    claims: Option<ChirpClaims>,
)
    ensures
        match header {
            Some(held) => verify::header_view(header) == Some(held@),
            None => verify::header_view(header) is None,
        },
        match reply {
            Ok(held) => keys::reply_view(reply) matches Ok(shown) && shown == held@,
            Err(reason) => keys::reply_view(reply) matches Err(shown) && shown == reason@,
        },
        match claims {
            Some(held) => verify::claims_view(claims) == Some(held@),
            None => verify::claims_view(claims) is None,
        },
{
}

} // verus!

//! Why a token was not accepted.

use vstd::prelude::*;

verus! {

/// Why a token was not accepted.
#[derive(Debug)]
pub enum ChirpAuthError {
    /// Not a JWT: wrong number of segments, an empty one, bad base64url or JSON.
    MalformedToken,
    /// The header or the key names an algorithm other than RS256.
    UnsupportedAlgorithm,
    /// The JWKS could not be fetched or parsed.
    JwksFetch(String),
    /// The JWKS holds no RSA key with the token's key id.
    NoMatchingKey,
    /// The signature does not verify under the key.
    SignatureInvalid,
    /// The issuer or the audience is not the expected one.
    ClaimMismatch,
    /// The token's expiry has passed.
    Expired,
    /// The subject is empty, too long or holds control characters.
    InvalidSubject,
    /// An email was required and the token has none.
    EmailRequired,
    /// A machine token came to an endpoint that does not accept them.
    MachineNotAllowed,
    /// A machine token names no owner, or not exactly one audience.
    MalformedMachineToken,
    /// The token's provenance (production or test) disagrees with the
    /// environment of the configured issuer.
    EnvironmentMismatch,
    /// No `Authorization: Bearer …` header, or an empty token.
    MissingBearer,
    /// Retained for backward compatibility; [`ChirpAuthError::EnvironmentMismatch`]
    /// is returned instead.
    TestTokenRejected,
}

/// What a [`ChirpAuthError`] says.
pub enum AuthErrorView {
    MalformedToken,
    UnsupportedAlgorithm,
    JwksFetch(Seq<char>),
    NoMatchingKey,
    SignatureInvalid,
    ClaimMismatch,
    Expired,
    InvalidSubject,
    EmailRequired,
    MachineNotAllowed,
    MalformedMachineToken,
    EnvironmentMismatch,
    MissingBearer,
    TestTokenRejected,
}

impl View for ChirpAuthError {
    type V = AuthErrorView;

    open spec fn view(&self) -> AuthErrorView {
        match self {
            ChirpAuthError::MalformedToken => AuthErrorView::MalformedToken,
            ChirpAuthError::UnsupportedAlgorithm => AuthErrorView::UnsupportedAlgorithm,
            ChirpAuthError::JwksFetch(message) => AuthErrorView::JwksFetch(message@),
            ChirpAuthError::NoMatchingKey => AuthErrorView::NoMatchingKey,
            ChirpAuthError::SignatureInvalid => AuthErrorView::SignatureInvalid,
            ChirpAuthError::ClaimMismatch => AuthErrorView::ClaimMismatch,
            ChirpAuthError::Expired => AuthErrorView::Expired,
            ChirpAuthError::InvalidSubject => AuthErrorView::InvalidSubject,
            ChirpAuthError::EmailRequired => AuthErrorView::EmailRequired,
            ChirpAuthError::MachineNotAllowed => AuthErrorView::MachineNotAllowed,
            ChirpAuthError::MalformedMachineToken => AuthErrorView::MalformedMachineToken,
            ChirpAuthError::EnvironmentMismatch => AuthErrorView::EnvironmentMismatch,
            ChirpAuthError::MissingBearer => AuthErrorView::MissingBearer,
            ChirpAuthError::TestTokenRejected => AuthErrorView::TestTokenRejected,
        }
    }
}

/// What a result says.
pub open spec fn result_view<T: View>(r: Result<T, ChirpAuthError>) -> Result<
    T::V,
    AuthErrorView,
> {
    match r {
        Ok(value) => Ok(value@),
        Err(error) => Err(error@),
    }
}

} // verus!

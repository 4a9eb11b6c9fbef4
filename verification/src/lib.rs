//! Client-side verifier for ChirpAuth-issued ID tokens.
//!
//! ChirpAuth mints RS256 JWTs and publishes its public keys via a JWKS endpoint at
//! `{issuer}/jwks.json`. Relying parties all need the same routine: parse the JWT,
//! fetch the JWKS, verify the signature, check `iss`/`aud`/`exp`, and return the
//! verified subject. This crate decides; the fetching and the JSON parsing between
//! its steps are the caller's (see [`verify`]). [`mint`] does the same for clients
//! that request machine tokens.
//!
//! ChirpAuth issues two shapes of token under the same JWKS:
//!
//! - **Human** tokens may carry `email` / `name` claims and have no `act` claim.
//! - **Machine** tokens carry `act: "machine"` and `owner_sub` (the human
//!   responsible for the client).
//!
//! Callers opt in to machine acceptance with [`VerifyOptions::accept_machine`]
//! (default `false`).
//!
//! A [`ChirpVerifiedToken`] carries two orthogonal axes: the [`Environment`]
//! (`Production`/`Test`) that the verifying keyset belongs to, and the
//! [`ChirpVerifiedIdentity`] principal (`Human`/`Machine`). The environment is
//! **enforced**: it is derived from the configured issuer, and a token that
//! disagrees with it is rejected with [`ChirpAuthError::EnvironmentMismatch`].
//!
//! What holds of verification as a whole is stated in [`laws`], and of minting in
//! [`mint::laws`]. What is believed of other crates is in [`outside`].

pub mod audience;
pub mod bearer;
pub mod clock;
pub mod config;
pub mod error;
pub mod identity;
pub mod jwt;
pub mod keys;
pub mod laws;
pub mod mint;
pub mod outside;
pub mod text;
pub mod verify;

pub use crate::audience::{AudienceClaim, AudienceSet};
pub use crate::bearer::bearer_token;
pub use crate::config::{ChirpAuthConfig, Environment, DEFAULT_ISSUER};
pub use crate::error::ChirpAuthError;
pub use crate::identity::{
    ChirpClaims, ChirpVerifiedIdentity, ChirpVerifiedToken, Claims, VerifyOptions,
};
pub use crate::jwt::JwtHeader;
pub use crate::keys::{Jwk, Jwks};
pub use crate::verify::{AwaitingClaims, AwaitingHeader, AwaitingKeys};

//! The signing keys that ChirpAuth publishes, and signatures under them.

use crate::error::{AuthErrorView, ChirpAuthError};
use crate::outside;
use crate::text;
use vstd::prelude::*;

verus! {

/// A parsed JWKS document: the set of RSA signing keys ChirpAuth publishes.
#[derive(Debug, Clone)]
pub struct Jwks {
    pub keys: Vec<Jwk>,
}

/// A single JWK (RSA public key) from a [`Jwks`] document.
#[derive(Debug, Clone)]
pub struct Jwk {
    pub kty: String,
    pub kid: String,
    pub alg: Option<String>,
    pub n: String,
    pub e: String,
}

/// What a [`Jwk`] says.
pub struct JwkView {
    pub kty: Seq<char>,
    pub kid: Seq<char>,
    pub alg: Option<Seq<char>>,
    pub n: Seq<char>,
    pub e: Seq<char>,
}

/// What an optional string says.
pub open spec fn optional_text(s: Option<String>) -> Option<Seq<char>> {
    match s {
        Some(text) => Some(text@),
        None => None,
    }
}

impl View for Jwk {
    type V = JwkView;

    open spec fn view(&self) -> JwkView {
        JwkView {
            kty: self.kty@,
            kid: self.kid@,
            alg: optional_text(self.alg),
            n: self.n@,
            e: self.e@,
        }
    }
}

impl View for Jwks {
    type V = Seq<JwkView>;

    open spec fn view(&self) -> Seq<JwkView> {
        self.keys@.map_values(|key: Jwk| key@)
    }
}

/// The published keyset, given what fetching and parsing it gave: the keyset, or
/// why there is none.
pub open spec fn keyset(reply: Result<Seq<JwkView>, Seq<char>>) -> Result<
    Seq<JwkView>,
    AuthErrorView,
> {
    match reply {
        Ok(keys) => Ok(keys),
        Err(message) => Err(AuthErrorView::JwksFetch(message)),
    }
}

/// What the outcome of a fetch says.
pub open spec fn reply_view(reply: Result<Jwks, String>) -> Result<Seq<JwkView>, Seq<char>> {
    match reply {
        Ok(jwks) => Ok(jwks@),
        Err(message) => Err(message@),
    }
}

/// The published keyset, given what fetching and parsing it gave.
pub fn keys_fetched(reply: Result<Jwks, String>) -> (r: Result<Jwks, ChirpAuthError>)
    ensures
        crate::error::result_view(r) == keyset(reply_view(reply)),
{
    match reply {
        Ok(jwks) => Ok(jwks),
        Err(message) => Err(ChirpAuthError::JwksFetch(message)),
    }
}

/// The first RSA key with the given key id.
pub open spec fn matching_key(keys: Seq<JwkView>, kid: Seq<char>) -> Option<JwkView>
    decreases keys.len(),
{
    if keys.len() == 0 {
        None
    } else if keys[0].kid == kid && keys[0].kty == "RSA"@ {
        Some(keys[0])
    } else {
        matching_key(keys.drop_first(), kid)
    }
}

/// Whether a signature verifies under a key. A key whose modulus or exponent is
/// not base64url verifies nothing.
pub open spec fn key_verifies(key: JwkView, signing_input: Seq<u8>, signature: Seq<u8>) -> bool {
    match (outside::base64url_decoded(key.n), outside::base64url_decoded(key.e)) {
        (Some(n), Some(e)) => outside::rsa_pkcs1_sha256_valid(n, e, signing_input, signature),
        _ => false,
    }
}

/// Verifies an RS256 signature under a published key.
pub fn verify_rsa_signature(key: &Jwk, signing_input: &[u8], signature: &[u8]) -> (r: Result<
    (),
    ChirpAuthError,
>)
    ensures
        match r {
            Ok(_) => key_verifies(key@, signing_input@, signature@),
            Err(error) => error is SignatureInvalid && !key_verifies(
                key@,
                signing_input@,
                signature@,
            ),
        },
{
    match (outside::base64url_decode(key.n.as_str()), outside::base64url_decode(key.e.as_str())) {
        (Ok(n), Ok(e)) => {
            match outside::rsa_pkcs1_sha256_verify(
                n.as_slice(),
                e.as_slice(),
                signing_input,
                signature,
            ) {
                Ok(_) => Ok(()),
                Err(_) => Err(ChirpAuthError::SignatureInvalid),
            }
        },
        _ => Err(ChirpAuthError::SignatureInvalid),
    }
}

/// Finds the first RSA key with the given key id.
pub fn find_key<'a>(jwks: &'a Jwks, kid: &str) -> (r: Option<&'a Jwk>)
    ensures
        match r {
            Some(key) => matching_key(jwks@, kid@) == Some(key@),
            None => matching_key(jwks@, kid@) is None,
        },
{
    let mut i: usize = 0;
    assert(jwks@.skip(0) =~= jwks@);
    while i < jwks.keys.len()
        invariant
            i <= jwks.keys.len(),
            jwks@.len() == jwks.keys.len(),
            matching_key(jwks@, kid@) == matching_key(jwks@.skip(i as int), kid@),
        decreases jwks.keys.len() - i,
    {
        let key = &jwks.keys[i];
        assert(jwks@.skip(i as int)[0] == key@);
        if text::same_text(key.kid.as_str(), kid) && text::same_text(key.kty.as_str(), "RSA") {
            return Some(key);
        }
        assert(jwks@.skip(i as int).drop_first() =~= jwks@.skip(i + 1));
        i += 1;
    }
    None
}

/// Whether a key is restricted to an algorithm other than RS256.
pub open spec fn other_algorithm(key: JwkView) -> bool {
    key.alg matches Some(alg) && alg != "RS256"@
}

/// The key that a token names: it must be published and be usable for RS256.
pub open spec fn selected_key(keys: Seq<JwkView>, kid: Seq<char>) -> Result<
    JwkView,
    AuthErrorView,
> {
    match matching_key(keys, kid) {
        None => Err(AuthErrorView::NoMatchingKey),
        Some(key) => if other_algorithm(key) {
            Err(AuthErrorView::UnsupportedAlgorithm)
        } else {
            Ok(key)
        },
    }
}

/// Selects the key that a token names.
pub fn select_key<'a>(jwks: &'a Jwks, kid: &str) -> (r: Result<&'a Jwk, ChirpAuthError>)
    ensures
        match r {
            Ok(key) => selected_key(jwks@, kid@) == Ok::<JwkView, AuthErrorView>(key@),
            Err(error) => selected_key(jwks@, kid@) == Err::<JwkView, AuthErrorView>(error@),
        },
{
    let key = match find_key(jwks, kid) {
        Some(key) => key,
        None => return Err(ChirpAuthError::NoMatchingKey),
    };
    if let Some(alg) = &key.alg {
        if !text::same_text(alg.as_str(), "RS256") {
            return Err(ChirpAuthError::UnsupportedAlgorithm);
        }
    }
    Ok(key)
}

/// The verdict on a signature: the key that the token names must be published, be
/// usable for RS256, and verify the signature.
pub open spec fn signature_verdict(
    keys: Seq<JwkView>,
    kid: Seq<char>,
    signing_input: Seq<u8>,
    signature: Seq<u8>,
) -> Result<(), AuthErrorView> {
    match selected_key(keys, kid) {
        Ok(key) => if key_verifies(key, signing_input, signature) {
            Ok(())
        } else {
            Err(AuthErrorView::SignatureInvalid)
        },
        Err(error) => Err(error),
    }
}

/// Checks a signature against a published keyset.
pub fn check_signature(jwks: &Jwks, kid: &str, signing_input: &[u8], signature: &[u8]) -> (r:
    Result<(), ChirpAuthError>)
    ensures
        match r {
            Ok(_) => signature_verdict(jwks@, kid@, signing_input@, signature@) is Ok,
            Err(error) => signature_verdict(jwks@, kid@, signing_input@, signature@) == Err::<
                (),
                AuthErrorView,
            >(error@),
        },
{
    match select_key(jwks, kid) {
        Ok(key) => verify_rsa_signature(key, signing_input, signature),
        Err(error) => Err(error),
    }
}

} // verus!

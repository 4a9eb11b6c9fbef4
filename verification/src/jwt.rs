//! The compact form of a signed token: three base64url segments.

use crate::error::ChirpAuthError;
use crate::outside;
use crate::text;
use vstd::prelude::*;

verus! {

/// The segments of a token, and the text that the signature is over.
#[derive(Debug)]
pub struct JwtParts<'a> {
    pub header: &'a str,
    pub claims: &'a str,
    pub signature: &'a str,
    pub signing_input: &'a str,
}

/// What a [`JwtParts`] says.
pub struct PartsView {
    pub header: Seq<char>,
    pub claims: Seq<char>,
    pub signature: Seq<char>,
    pub signing_input: Seq<char>,
}

impl View for JwtParts<'_> {
    type V = PartsView;

    open spec fn view(&self) -> PartsView {
        PartsView {
            header: self.header@,
            claims: self.claims@,
            signature: self.signature@,
            signing_input: self.signing_input@,
        }
    }
}

/// The parts of a token that consists of exactly three non-empty segments
/// between dots. The signature is over the first two and the dot between them.
pub open spec fn parts_of(token: Seq<char>) -> Option<PartsView> {
    let segments = text::split(token, '.');
    if segments.len() == 3 && segments[0].len() > 0 && segments[1].len() > 0 && segments[2].len()
        > 0 {
        Some(
            PartsView {
                header: segments[0],
                claims: segments[1],
                signature: segments[2],
                signing_input: segments[0] + seq!['.'] + segments[1],
            },
        )
    } else {
        None
    }
}

/// Splits a token into its segments.
pub fn jwt_parts(token: &str) -> (r: Result<JwtParts<'_>, ChirpAuthError>)
    ensures
        match r {
            Ok(parts) => parts_of(token@) == Some(parts@),
            Err(error) => error is MalformedToken && parts_of(token@) is None,
        },
{
    let len: usize = token.unicode_len();
    proof {
        text::lemma_split_step(token@, '.');
    }
    let first: usize = text::position_of(token, '.');
    if first >= len {
        return Err(ChirpAuthError::MalformedToken);
    }
    let after_header = token.substring_char(first + 1, len);
    assert(after_header@ =~= token@.skip(first + 1));
    proof {
        text::lemma_split_step(after_header@, '.');
    }
    let second: usize = text::position_of(after_header, '.');
    let after_header_len: usize = len - first - 1;
    if second >= after_header_len {
        return Err(ChirpAuthError::MalformedToken);
    }
    let signature = after_header.substring_char(second + 1, after_header_len);
    assert(signature@ =~= after_header@.skip(second + 1));
    proof {
        text::lemma_split_step(signature@, '.');
    }
    let third: usize = text::position_of(signature, '.');
    let signature_len: usize = after_header_len - second - 1;
    if third < signature_len {
        proof {
            text::lemma_split_step(signature@.skip(third + 1), '.');
        }
        return Err(ChirpAuthError::MalformedToken);
    }
    let header = token.substring_char(0, first);
    let claims = after_header.substring_char(0, second);
    let signing_input = token.substring_char(0, first + 1 + second);
    proof {
        assert(header@ =~= token@.take(first as int));
        assert(claims@ =~= after_header@.take(second as int));
        assert(signing_input@ =~= header@ + seq!['.'] + claims@);
        assert(text::split(token@, '.') =~= seq![header@, claims@, signature@]);
    }
    if header.is_empty() || claims.is_empty() || signature.is_empty() {
        return Err(ChirpAuthError::MalformedToken);
    }
    Ok(JwtParts { header, claims, signature, signing_input })
}

/// The header of a token.
#[derive(Clone, Debug)]
pub struct JwtHeader {
    pub alg: String,
    pub kid: String,
}

/// What a [`JwtHeader`] says.
pub struct HeaderView {
    pub alg: Seq<char>,
    pub kid: Seq<char>,
}

impl View for JwtHeader {
    type V = HeaderView;

    open spec fn view(&self) -> HeaderView {
        HeaderView { alg: self.alg@, kid: self.kid@ }
    }
}

/// A token with its segments decoded.
#[derive(Debug)]
pub struct DecodedToken {
    pub header: Vec<u8>,
    pub claims: Vec<u8>,
    pub signature: Vec<u8>,
    pub signing_input: String,
}

/// What a [`DecodedToken`] says.
pub struct DecodedView {
    pub header: Seq<u8>,
    pub claims: Seq<u8>,
    pub signature: Seq<u8>,
    pub signing_input: Seq<char>,
}

impl View for DecodedToken {
    type V = DecodedView;

    open spec fn view(&self) -> DecodedView {
        DecodedView {
            header: self.header@,
            claims: self.claims@,
            signature: self.signature@,
            signing_input: self.signing_input@,
        }
    }
}

/// A token with its segments decoded, when it has three and each of them is
/// base64url.
pub open spec fn decoded(token: Seq<char>) -> Option<DecodedView> {
    match parts_of(token) {
        Some(parts) => decoded_parts(
            parts.signing_input,
            outside::base64url_decoded(parts.header),
            outside::base64url_decoded(parts.claims),
            outside::base64url_decoded(parts.signature),
        ),
        None => None,
    }
}

/// The decoded segments, when all of them could be decoded.
pub open spec fn decoded_parts(
    signing_input: Seq<char>,
    header: Option<Seq<u8>>,
    claims: Option<Seq<u8>>,
    signature: Option<Seq<u8>>,
) -> Option<DecodedView> {
    match (header, claims, signature) {
        (Some(header), Some(claims), Some(signature)) => Some(
            DecodedView { header, claims, signature, signing_input },
        ),
        _ => None,
    }
}

/// Puts a token together from what decoding its segments gave.
pub fn assemble_token(
    signing_input: &str,
    header: Option<Vec<u8>>,
    claims: Option<Vec<u8>>,
    signature: Option<Vec<u8>>,
) -> (r: Result<DecodedToken, ChirpAuthError>)
    ensures
        ({
            let expected = decoded_parts(
                signing_input@,
                optional_bytes(header),
                optional_bytes(claims),
                optional_bytes(signature),
            );
            match r {
                Ok(token) => expected == Some(token@),
                Err(error) => error is MalformedToken && expected is None,
            }
        }),
{
    match (header, claims, signature) {
        (Some(header), Some(claims), Some(signature)) => Ok(
            DecodedToken { header, claims, signature, signing_input: signing_input.to_owned() },
        ),
        _ => Err(ChirpAuthError::MalformedToken),
    }
}

/// What an optional byte string says.
pub open spec fn optional_bytes(bytes: Option<Vec<u8>>) -> Option<Seq<u8>> {
    match bytes {
        Some(b) => Some(b@),
        None => None,
    }
}

/// The bytes that a base64url text stands for, if it is one.
fn decode_segment(segment: &str) -> (r: Option<Vec<u8>>)
    ensures
        optional_bytes(r) == outside::base64url_decoded(segment@),
{
    match outside::base64url_decode(segment) {
        Ok(bytes) => Some(bytes),
        Err(_) => None,
    }
}

/// Splits a token and decodes its segments.
pub fn decode_token(token: &str) -> (r: Result<DecodedToken, ChirpAuthError>)
    ensures
        match r {
            Ok(t) => decoded(token@) == Some(t@),
            Err(error) => error is MalformedToken && decoded(token@) is None,
        },
{
    match jwt_parts(token) {
        Ok(parts) => assemble_token(
            parts.signing_input,
            decode_segment(parts.header),
            decode_segment(parts.claims),
            decode_segment(parts.signature),
        ),
        Err(error) => Err(error),
    }
}

} // verus!

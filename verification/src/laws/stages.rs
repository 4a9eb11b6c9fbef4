//! What each stage of verification takes from the one before it, and on which inputs
//! it ends with which error.

use crate::bearer;
use crate::config::ConfigView;
use crate::error::AuthErrorView;
use crate::jwt::HeaderView;
use crate::keys::JwkView;
use crate::laws;
use crate::verify::{AwaitingClaimsView, AwaitingHeaderView, AwaitingKeysView};
use crate::{jwt, keys, outside, text, verify};
use vstd::prelude::*;

verus! {

/// Whether a text is a token: three segments, none of them empty or with a dot in
/// it, between dots.
pub open spec fn is_token(
    token: Seq<char>,
    header: Seq<char>,
    claims: Seq<char>,
    signature: Seq<char>,
) -> bool {
    &&& token == header + seq!['.'] + claims + seq!['.'] + signature
    &&& header.len() > 0 && !header.contains('.')
    &&& claims.len() > 0 && !claims.contains('.')
    &&& signature.len() > 0 && !signature.contains('.')
}

/// A text can be split exactly when it is a token, and then into its segments.
pub proof fn law_tokens_are_split(token: Seq<char>)
    ensures
        jwt::parts_of(token) is Some <==> exists|h: Seq<char>, c: Seq<char>, s: Seq<char>|
            is_token(token, h, c, s),
        jwt::parts_of(token) matches Some(parts) ==> is_token(
            token,
            parts.header,
            parts.claims,
            parts.signature,
        ),
{
    laws::law_segments_rejoin(token);
    if exists|h: Seq<char>, c: Seq<char>, s: Seq<char>| is_token(token, h, c, s) {
        let (h, c, s) = choose|h: Seq<char>, c: Seq<char>, s: Seq<char>| is_token(token, h, c, s);
        laws::law_joined_segments_split(h, c, s);
    }
    if let Some(parts) = jwt::parts_of(token) {
        assert(token =~= parts.header + seq!['.'] + parts.claims + seq!['.'] + parts.signature);
        assert(is_token(token, parts.header, parts.claims, parts.signature));
    }
}

/// A token starts exactly when each of its segments is base64url. What it starts
/// with is the config, the bytes of each segment, and the text that the signature is
/// over: the first two segments as they stand.
pub proof fn law_segments_are_decoded(
    config: ConfigView,
    token: Seq<char>,
    header: Seq<char>,
    claims: Seq<char>,
    signature: Seq<char>,
)
    requires
        is_token(token, header, claims, signature),
    ensures
        verify::started(config, token) is Ok <==> {
            &&& outside::base64url_decoded(header) is Some
            &&& outside::base64url_decoded(claims) is Some
            &&& outside::base64url_decoded(signature) is Some
        },
        verify::started(config, token) matches Ok(first) ==> {
            &&& first.config == config
            &&& Some(first.token.header) == outside::base64url_decoded(header)
            &&& Some(first.token.claims) == outside::base64url_decoded(claims)
            &&& Some(first.token.signature) == outside::base64url_decoded(signature)
            &&& first.token.signing_input == header + seq!['.'] + claims
            &&& jwt::decoded(token) == Some(first.token)
        },
        verify::started(config, token) matches Err(error) ==> error is MalformedToken
            && jwt::decoded(token) is None,
{
    laws::law_joined_segments_split(header, claims, signature);
}

/// What is no token does not start.
pub proof fn law_other_texts_are_malformed(config: ConfigView, token: Seq<char>)
    requires
        forall|h: Seq<char>, c: Seq<char>, s: Seq<char>| !is_token(token, h, c, s),
    ensures
        verify::started(config, token) == Err::<AwaitingHeaderView, AuthErrorView>(
            AuthErrorView::MalformedToken,
        ),
        jwt::decoded(token) is None,
{
    law_tokens_are_split(token);
}

/// Decoded segments make a token exactly when none of them is missing.
pub proof fn law_decoded_segments_make_a_token(
    signing_input: Seq<char>,
    header: Option<Seq<u8>>,
    claims: Option<Seq<u8>>,
    signature: Option<Seq<u8>>,
)
    ensures
        match jwt::decoded_parts(signing_input, header, claims, signature) {
            Some(token) => {
                &&& header == Some(token.header)
                &&& claims == Some(token.claims)
                &&& signature == Some(token.signature)
                &&& token.signing_input == signing_input
            },
            None => header is None || claims is None || signature is None,
        },
{
}

/// A header that could not be parsed is malformed, and one that names another
/// algorithm than RS256 is not supported. Else the token goes on with its key id, and
/// with the config and the segments that it started with.
pub proof fn law_header_stage(first: AwaitingHeaderView, header: Option<HeaderView>)
    ensures
        match header {
            None => first.with_header(header) == Err::<AwaitingKeysView, AuthErrorView>(
                AuthErrorView::MalformedToken,
            ),
            Some(read) => if read.alg == "RS256"@ {
                &&& first.with_header(header) is Ok
                &&& first.with_header(header)->Ok_0.config == first.config
                &&& first.with_header(header)->Ok_0.token == first.token
                &&& first.with_header(header)->Ok_0.kid == read.kid
            } else {
                first.with_header(header) == Err::<AwaitingKeysView, AuthErrorView>(
                    AuthErrorView::UnsupportedAlgorithm,
                )
            },
        },
{
}

/// Whether a key is an RSA key with this id.
pub open spec fn is_named(key: JwkView, kid: Seq<char>) -> bool {
    key.kid == kid && key.kty == "RSA"@
}

/// Whether a signature is right under a key: both halves of the key are base64url,
/// and the signature of the message is valid under what they stand for.
pub open spec fn is_right(key: JwkView, message: Seq<u8>, signature: Seq<u8>) -> bool {
    &&& outside::base64url_decoded(key.n) is Some
    &&& outside::base64url_decoded(key.e) is Some
    &&& outside::rsa_pkcs1_sha256_valid(
        outside::base64url_decoded(key.n)->0,
        outside::base64url_decoded(key.e)->0,
        message,
        signature,
    )
}

/// A key verifies what is right under it and nothing else.
pub proof fn law_keys_verify_what_is_right(key: JwkView, message: Seq<u8>, signature: Seq<u8>)
    ensures
        keys::key_verifies(key, message, signature) <==> is_right(key, message, signature),
{
}

/// A keyset that could not be fetched is reported with the reason as it stands.
pub proof fn law_failed_fetch_is_reported(second: AwaitingKeysView, reason: Seq<char>)
    ensures
        second.with_keys(Err(reason)) == Err::<AwaitingClaimsView, AuthErrorView>(
            AuthErrorView::JwksFetch(reason),
        ),
        keys::keyset(Err(reason)) == Err::<Seq<JwkView>, AuthErrorView>(
            AuthErrorView::JwksFetch(reason),
        ),
{
}

/// A fetched keyset is used as it is.
pub proof fn law_fetched_keys_are_used(published: Seq<JwkView>)
    ensures
        keys::keyset(Ok(published)) == Ok::<Seq<JwkView>, AuthErrorView>(published),
{
}

/// Without an RSA key of the token's key id there is no matching key.
pub proof fn law_unpublished_key_is_refused(second: AwaitingKeysView, published: Seq<JwkView>)
    requires
        forall|j: int| 0 <= j < published.len() ==> !is_named(#[trigger] published[j], second.kid),
    ensures
        second.with_keys(Ok(published)) == Err::<AwaitingClaimsView, AuthErrorView>(
            AuthErrorView::NoMatchingKey,
        ),
        keys::selected_key(published, second.kid) == Err::<JwkView, AuthErrorView>(
            AuthErrorView::NoMatchingKey,
        ),
{
    laws::law_first_published_key_is_found(published, second.kid);
    if let Some(key) = keys::matching_key(published, second.kid) {
        let i = choose|i: int|
            0 <= i < published.len() && #[trigger] published[i] == key && key.kid == second.kid
                && key.kty == "RSA"@;
        assert(is_named(published[i], second.kid));
    }
}

/// The first RSA key of the token's key id decides: it must not be bound to another
/// algorithm than RS256, and the token's signature must be right under it, over the
/// bytes of the token's first two segments. Then the token goes on with its config
/// and the bytes of its claims.
pub proof fn law_named_key_decides(
    second: AwaitingKeysView,
    published: Seq<JwkView>,
    i: int,
)
    requires
        0 <= i < published.len(),
        is_named(published[i], second.kid),
        forall|j: int| 0 <= j < i ==> !is_named(#[trigger] published[j], second.kid),
    ensures
        ({
            let key = published[i];
            let message = vstd::utf8::encode_utf8(second.token.signing_input);
            let verdict = second.with_keys(Ok(published));
            let bound = key.alg is Some && key.alg != Some("RS256"@);
            if bound {
                &&& verdict == Err::<AwaitingClaimsView, AuthErrorView>(
                    AuthErrorView::UnsupportedAlgorithm,
                )
                &&& keys::selected_key(published, second.kid) == Err::<JwkView, AuthErrorView>(
                    AuthErrorView::UnsupportedAlgorithm,
                )
            } else {
                &&& keys::selected_key(published, second.kid) == Ok::<JwkView, AuthErrorView>(key)
                &&& verdict is Ok <==> is_right(key, message, second.token.signature)
                &&& verdict matches Ok(last) ==> last.config == second.config && last.claims
                    == second.token.claims
                &&& verdict matches Err(error) ==> error is SignatureInvalid
            }
        }),
{
    laws::law_first_published_key_is_found(published, second.kid);
    match keys::matching_key(published, second.kid) {
        Some(key) => {
            let k = choose|k: int|
                0 <= k < published.len() && #[trigger] published[k] == key && key.kid == second.kid
                    && key.kty == "RSA"@ && (forall|j: int|
                    0 <= j < k ==> !((#[trigger] published[j]).kid == second.kid
                        && published[j].kty == "RSA"@));
            assert(is_named(published[k], second.kid));
            assert(k == i);
        },
        None => {
            assert(!(published[i].kid == second.kid && published[i].kty == "RSA"@));
        },
    }
}

/// The verdict on a signature, whatever is signed: that of the selected key.
pub proof fn law_signature_is_judged_by_the_selected_key(
    published: Seq<JwkView>,
    kid: Seq<char>,
    message: Seq<u8>,
    signature: Seq<u8>,
)
    ensures
        match keys::selected_key(published, kid) {
            Ok(key) => {
                &&& keys::signature_verdict(published, kid, message, signature) is Ok <==> is_right(
                    key,
                    message,
                    signature,
                )
                &&& keys::signature_verdict(published, kid, message, signature) matches Err(error)
                    ==> error is SignatureInvalid
            },
            Err(error) => keys::signature_verdict(published, kid, message, signature) == Err::<
                (),
                AuthErrorView,
            >(error),
        },
{
}

/// The token goes through the stages in order, and the first error ends it.
pub proof fn law_stages_follow_each_other(
    config: ConfigView,
    token: Seq<char>,
    header: Option<HeaderView>,
    reply: Result<Seq<JwkView>, Seq<char>>,
)
    ensures
        ({
            let end = verify::authenticated(config, token, header, reply);
            match verify::started(config, token) {
                Err(error) => end == Err::<AwaitingClaimsView, AuthErrorView>(error),
                Ok(first) => match first.with_header(header) {
                    Err(error) => end == Err::<AwaitingClaimsView, AuthErrorView>(error),
                    Ok(second) => end == second.with_keys(reply),
                },
            }
        }),
{
}

/// Two texts are the same up to the case of ASCII letters exactly when, place by
/// place, they hold the same character or a capital and its small letter.
pub proof fn law_ascii_case(a: Seq<char>, b: Seq<char>)
    ensures
        text::same_ignoring_ascii_case(a, b) <==> {
            &&& a.len() == b.len()
            &&& forall|i: int|
                0 <= i < a.len() ==> {
                    ||| #[trigger] a[i] == b[i]
                    ||| 'A' <= a[i] <= 'Z' && b[i] as int == a[i] as int + 32
                    ||| 'A' <= b[i] <= 'Z' && a[i] as int == b[i] as int + 32
                }
        },
{
    if text::same_ignoring_ascii_case(a, b) {
        assert forall|i: int| 0 <= i < a.len() implies {
            ||| #[trigger] a[i] == b[i]
            ||| 'A' <= a[i] <= 'Z' && b[i] as int == a[i] as int + 32
            ||| 'A' <= b[i] <= 'Z' && a[i] as int == b[i] as int + 32
        } by {
            assert(text::ascii_lowercase(a[i]) == text::ascii_lowercase(b[i]));
        }
    }
}

/// Whether a text is an authorization of the bearer scheme for `sent`.
pub open spec fn authorizes(value: Seq<char>, scheme: Seq<char>, sent: Seq<char>) -> bool {
    &&& value == scheme + seq![' '] + sent
    &&& text::same_ignoring_ascii_case(scheme, "bearer"@)
}

/// A credential is found only in what is sent under the bearer scheme, and then it is
/// what was sent, without surrounding whitespace.
pub proof fn law_credential_was_sent(value: Seq<char>)
    ensures
        bearer::bearer_credential(value) matches Some(token) ==> exists|
            scheme: Seq<char>,
            sent: Seq<char>,
        | #[trigger]
            authorizes(value, scheme, sent) && token == text::trim(sent) && token.len() > 0,
{
    if let Some(token) = bearer::bearer_credential(value) {
        text::lemma_position(value, ' ');
        let space = text::position(value, ' ');
        let scheme = value.take(space);
        let sent = value.skip(space + 1);
        assert(value =~= scheme + seq![' '] + sent);
        assert(authorizes(value, scheme, sent));
    }
}

/// The credential of a request is that of the first `Authorization` header, read
/// character by character, and there is none without that header or when it is not
/// visible ASCII.
pub proof fn law_first_authorization_header_counts(headers: http::HeaderMap, value: Seq<char>)
    ensures
        ({
            let all = outside::header_values(headers);
            let bytes = all["authorization"@][0];
            let visible = forall|i: int|
                0 <= i < bytes.len() ==> 32 <= #[trigger] bytes[i] < 127 || bytes[i] == 9;
            &&& !all.contains_key("authorization"@) ==> bearer::bearer_in(headers) is None
            &&& all.contains_key("authorization"@) && !visible ==> bearer::bearer_in(headers)
                is None
            &&& all.contains_key("authorization"@) && visible && value.len() == bytes.len() && (
            forall|i: int| 0 <= i < bytes.len() ==> #[trigger] value[i] == bytes[i] as char)
                ==> bearer::bearer_in(headers) == bearer::bearer_credential(value)
        }),
{
    let bytes = outside::header_values(headers)["authorization"@][0];
    if value.len() == bytes.len() && (forall|i: int|
        0 <= i < bytes.len() ==> #[trigger] value[i] == bytes[i] as char) {
        assert(outside::ascii_text(bytes) =~= value);
    }
}

/// A request starts with its bearer credential, and without one it is missing.
pub proof fn law_requests_start_with_their_credential(
    config: ConfigView,
    headers: http::HeaderMap,
)
    ensures
        match bearer::bearer_in(headers) {
            Some(token) => verify::started_from_headers(config, headers) == verify::started(
                config,
                token,
            ),
            None => verify::started_from_headers(config, headers) == Err::<
                AwaitingHeaderView,
                AuthErrorView,
            >(AuthErrorView::MissingBearer),
        },
{
}

} // verus!

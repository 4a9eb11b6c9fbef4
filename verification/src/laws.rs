//! What holds of verification as a whole.

pub mod claims;
pub mod settings;
pub mod stages;
pub mod views;

use crate::audience::AudienceClaimView;
use crate::config::{ConfigView, Environment};
use crate::error::AuthErrorView;
use crate::identity::{ClaimsView, IdentityView, JwsClaimsView, VerifiedTokenView, VerifyOptions};
use crate::jwt::{HeaderView, PartsView};
use crate::keys::JwkView;
use crate::{bearer, config, identity, jwt, keys, outside, text, verify};
use vstd::prelude::*;

verus! {

/// The key that is found for a key id is the first published RSA key with that
/// id, and none is found only when there is no such key.
pub proof fn law_first_published_key_is_found(published: Seq<JwkView>, kid: Seq<char>)
    ensures
        match keys::matching_key(published, kid) {
            Some(key) => exists|i: int|
                0 <= i < published.len() && #[trigger] published[i] == key && key.kid == kid
                    && key.kty == "RSA"@ && (forall|j: int|
                    0 <= j < i ==> !((#[trigger] published[j]).kid == kid && published[j].kty
                        == "RSA"@)),
            None => forall|j: int|
                0 <= j < published.len() ==> !((#[trigger] published[j]).kid == kid
                    && published[j].kty == "RSA"@),
        },
    decreases published.len(),
{
    if published.len() > 0 && !(published[0].kid == kid && published[0].kty == "RSA"@) {
        let rest = published.drop_first();
        law_first_published_key_is_found(rest, kid);
        assert forall|j: int| 1 <= j < published.len() implies published[j] == rest[j - 1] by {}
        match keys::matching_key(rest, kid) {
            Some(key) => {
                let i = choose|i: int|
                    0 <= i < rest.len() && #[trigger] rest[i] == key && key.kid == kid && key.kty
                        == "RSA"@ && (forall|j: int|
                        0 <= j < i ==> !((#[trigger] rest[j]).kid == kid && rest[j].kty == "RSA"@));
                assert(published[i + 1] == key);
                assert forall|j: int| 0 <= j < i + 1 implies !((#[trigger] published[j]).kid == kid
                    && published[j].kty == "RSA"@) by {
                    if j > 0 {
                        assert(published[j] == rest[j - 1]);
                    }
                }
            },
            None => {
                assert forall|j: int| 0 <= j < published.len() implies !((
                #[trigger] published[j]).kid == kid && published[j].kty == "RSA"@) by {
                    if j > 0 {
                        assert(published[j] == rest[j - 1]);
                    }
                }
            },
        }
    }
}

/// Whether a token is signed: its header names RS256, and the first published RSA
/// key with the header's key id, which is not bound to another algorithm, verifies
/// the signature over the first two segments.
pub open spec fn is_signed(
    token: Seq<char>,
    header: Option<HeaderView>,
    reply: Result<Seq<JwkView>, Seq<char>>,
) -> bool {
    match (jwt::decoded(token), header, reply) {
        (Some(decoded), Some(header), Ok(published)) => {
            &&& header.alg == "RS256"@
            &&& keys::matching_key(published, header.kid) matches Some(key) && (key.alg is None
                || key.alg == Some("RS256"@)) && {
                &&& outside::base64url_decoded(key.n) is Some
                &&& outside::base64url_decoded(key.e) is Some
                &&& outside::rsa_pkcs1_sha256_valid(
                    outside::base64url_decoded(key.n)->0,
                    outside::base64url_decoded(key.e)->0,
                    vstd::utf8::encode_utf8(decoded.signing_input),
                    decoded.signature,
                )
            }
        },
        _ => false,
    }
}

/// The claims are reached exactly when the token is signed, and they are then the
/// bytes of the token's second segment, judged under the config whose keys
/// verified the signature.
pub proof fn law_claims_are_reached_iff_signed(
    config: ConfigView,
    token: Seq<char>,
    header: Option<HeaderView>,
    reply: Result<Seq<JwkView>, Seq<char>>,
)
    ensures
        match verify::authenticated(config, token, header, reply) {
            Ok(last) => {
                &&& is_signed(token, header, reply)
                &&& last.config == config
                &&& jwt::decoded(token) matches Some(decoded) && last.claims == decoded.claims
            },
            Err(_) => !is_signed(token, header, reply),
        },
{
}

/// An ID token is accepted exactly when it is signed, its claims can be read, its
/// issuer is exactly the configured one, one of its audiences is allowed, it has
/// not expired, its environment is that of the configured issuer, and its principal
/// is acceptable.
pub proof fn law_accepted_id_token(
    config: ConfigView,
    token: Seq<char>,
    header: Option<HeaderView>,
    reply: Result<Seq<JwkView>, Seq<char>>,
    claims: Option<ClaimsView>,
    options: VerifyOptions,
    now: i64,
)
    ensures
        verify::id_token_verdict(config, token, header, reply, claims, options, now) is Ok <==> {
            &&& is_signed(token, header, reply)
            &&& claims matches Some(claims) && {
                &&& claims.iss == config.issuer
                &&& claims.aud.matches_any(config.accepted_audiences)
                &&& claims.exp > now
                &&& identity::token_environment(claims) == config.environment()
                &&& is_acceptable_principal(claims, options)
            }
        },
        verify::id_token_verdict(config, token, header, reply, claims, options, now) matches Ok(
            verified,
        ) ==> verified.environment == config.environment(),
{
    law_claims_are_reached_iff_signed(config, token, header, reply);
    if let Some(claims) = claims {
        law_acceptable_principals(claims, options);
    }
}

/// Whether the claims name a principal: a subject that is one and, of a machine,
/// consent, an owner and a single audience, or, of a human, an email where that is
/// asked for.
pub open spec fn is_acceptable_principal(claims: ClaimsView, options: VerifyOptions) -> bool {
    &&& identity::is_subject(text::trim(claims.sub))
    &&& if claims.act == Some("machine"@) {
        &&& options.accept_machine
        &&& identity::non_blank(claims.owner_sub) is Some
        &&& claims.aud.values().len() == 1
    } else {
        options.require_email ==> identity::non_blank(claims.email) is Some
    }
}

/// A principal is accepted exactly when it is acceptable.
pub proof fn law_acceptable_principals(claims: ClaimsView, options: VerifyOptions)
    ensures
        identity::principal_verdict(claims, options) is Ok <==> is_acceptable_principal(
            claims,
            options,
        ),
{
}

/// A JWS is accepted exactly when it is signed, its claims can be read, its issuer
/// is exactly the configured one, one of its audiences is allowed where that is
/// asked for, and it has not expired.
pub proof fn law_accepted_jws(
    config: ConfigView,
    token: Seq<char>,
    header: Option<HeaderView>,
    reply: Result<Seq<JwkView>, Seq<char>>,
    claims: Option<ClaimsView>,
    validate_aud: bool,
    now: i64,
)
    ensures
        verify::jws_verdict(config, token, header, reply, claims, validate_aud, now) is Ok <==> {
            &&& is_signed(token, header, reply)
            &&& jwt::decoded(token) matches Some(decoded) && outside::json_object(
                decoded.claims,
            ) is Some
            &&& claims matches Some(claims) && {
                &&& claims.iss == config.issuer
                &&& (validate_aud ==> claims.aud.matches_any(config.accepted_audiences))
                &&& claims.exp > now
            }
        },
{
    law_claims_are_reached_iff_signed(config, token, header, reply);
}

/// A token that is not signed is refused, whatever it claims.
pub proof fn law_unsigned_token_is_refused(
    config: ConfigView,
    token: Seq<char>,
    header: Option<HeaderView>,
    reply: Result<Seq<JwkView>, Seq<char>>,
    claims: Option<ClaimsView>,
    options: VerifyOptions,
    validate_aud: bool,
    now: i64,
)
    requires
        !is_signed(token, header, reply),
    ensures
        verify::id_token_verdict(config, token, header, reply, claims, options, now) is Err,
        verify::jws_verdict(config, token, header, reply, claims, validate_aud, now) is Err,
{
    law_claims_are_reached_iff_signed(config, token, header, reply);
}

/// A header that names another algorithm than RS256 is refused before any key is
/// looked at.
pub proof fn law_only_rs256(
    first: verify::AwaitingHeaderView,
    header: HeaderView,
)
    ensures
        first.with_header(Some(header)) is Ok <==> header.alg == "RS256"@,
        header.alg != "RS256"@ ==> first.with_header(Some(header)) == Err::<
            verify::AwaitingKeysView,
            AuthErrorView,
        >(AuthErrorView::UnsupportedAlgorithm),
{
}

/// The environment is enforced: claims that are otherwise acceptable are accepted
/// exactly when the token comes from the environment of the configured issuer, and
/// else refused for that reason.
pub proof fn law_environment_is_enforced(
    config: ConfigView,
    claims: ClaimsView,
    options: VerifyOptions,
    now: i64,
)
    requires
        identity::standard_verdict(config, claims, true, now) is Ok,
        identity::principal_verdict(claims, options) is Ok,
    ensures
        identity::id_claims_verdict(config, claims, options, now) is Ok
            <==> identity::token_environment(claims) == config.environment(),
        identity::token_environment(claims) != config.environment() ==> identity::id_claims_verdict(
            config,
            claims,
            options,
            now,
        ) == Err::<VerifiedTokenView, AuthErrorView>(AuthErrorView::EnvironmentMismatch),
{
}

/// A relying party whose issuer is a production issuer never observes a test
/// identity, and one whose issuer is a test issuer observes nothing else.
pub proof fn law_test_identities_stay_in_test(
    config: ConfigView,
    claims: ClaimsView,
    options: VerifyOptions,
    now: i64,
)
    requires
        identity::id_claims_verdict(config, claims, options, now) is Ok,
    ensures
        ({
            let verified = identity::id_claims_verdict(config, claims, options, now)->Ok_0;
            if config::is_test_issuer(config.issuer) {
                verified.environment == Environment::Test && claims.test == Some(true)
            } else {
                verified.environment == Environment::Production && claims.test != Some(true)
            }
        }),
{
}

/// `accept_test` has no effect.
pub proof fn law_accept_test_is_ignored(
    config: ConfigView,
    claims: ClaimsView,
    options: VerifyOptions,
    accept_test: bool,
    now: i64,
)
    ensures
        identity::id_claims_verdict(
            config,
            claims,
            VerifyOptions { accept_test, ..options },
            now,
        ) == identity::id_claims_verdict(config, claims, options, now),
{
}

/// `TestTokenRejected` is never the reason, and a missing bearer token only is when
/// there is none in the headers.
pub proof fn law_reasons_for_refusal(
    config: ConfigView,
    token: Seq<char>,
    header: Option<HeaderView>,
    reply: Result<Seq<JwkView>, Seq<char>>,
    claims: Option<ClaimsView>,
    options: VerifyOptions,
    validate_aud: bool,
    now: i64,
    headers: http::HeaderMap,
)
    ensures
        verify::id_token_verdict(config, token, header, reply, claims, options, now) matches Err(
            error,
        ) ==> !(error is TestTokenRejected) && !(error is MissingBearer),
        verify::jws_verdict(config, token, header, reply, claims, validate_aud, now) matches Err(
            error,
        ) ==> !(error is TestTokenRejected) && !(error is MissingBearer),
        verify::started_from_headers(config, headers) matches Err(error) && error is MissingBearer
            <==> bearer::bearer_in(headers) is None,
{
}

/// A token is accepted as a machine exactly when it says that it is one, and then
/// only where machines are accepted.
pub proof fn law_machines_need_consent(
    config: ConfigView,
    claims: ClaimsView,
    options: VerifyOptions,
    now: i64,
)
    requires
        identity::id_claims_verdict(config, claims, options, now) is Ok,
    ensures
        ({
            let verified = identity::id_claims_verdict(config, claims, options, now)->Ok_0;
            &&& verified.identity is Machine <==> claims.act == Some("machine"@)
            &&& verified.identity is Machine ==> options.accept_machine
        }),
{
}

/// A machine's client id is the only audience of its token, and it is allowed.
pub proof fn law_client_id_is_allowed(
    config: ConfigView,
    claims: ClaimsView,
    options: VerifyOptions,
    now: i64,
)
    requires
        identity::id_claims_verdict(config, claims, options, now) matches Ok(verified)
            && verified.identity is Machine,
    ensures
        ({
            let verified = identity::id_claims_verdict(config, claims, options, now)->Ok_0;
            &&& claims.aud.values() == seq![verified.identity->client_id]
            &&& config.accepted_audiences.contains(verified.identity->client_id)
        }),
{
    let client_id = claims.aud.single()->0;
    assert(claims.aud.values() =~= seq![client_id]);
}

/// The subject of every identity is non-empty, at most 128 characters long, free
/// of control characters and without surrounding whitespace.
pub proof fn law_subject_is_clean(
    config: ConfigView,
    claims: ClaimsView,
    options: VerifyOptions,
    now: i64,
)
    requires
        identity::id_claims_verdict(config, claims, options, now) is Ok,
    ensures
        ({
            let sub = identity::id_claims_verdict(config, claims, options, now)->Ok_0.identity.sub();
            &&& identity::is_subject(sub)
            &&& text::trim(sub) == sub
            &&& sub == text::trim(claims.sub)
        }),
{
    text::lemma_trim_idempotent(claims.sub);
}

/// A text that is neither blank nor surrounded by whitespace.
pub open spec fn is_clean(s: Seq<char>) -> bool {
    s.len() > 0 && text::trim(s) == s
}

proof fn lemma_non_blank_is_clean(claim: Option<Seq<char>>)
    ensures
        identity::non_blank(claim) matches Some(value) ==> is_clean(value),
{
    if let Some(value) = claim {
        text::lemma_trim_idempotent(value);
    }
}

/// No other field of an identity is blank or surrounded by whitespace either. A
/// client id is the audience as it stands.
pub proof fn law_fields_are_clean(claims: ClaimsView, options: VerifyOptions)
    requires
        identity::principal_verdict(claims, options) is Ok,
    ensures
        match identity::principal_verdict(claims, options)->Ok_0 {
            IdentityView::Human { sub: _, email, name, root_sub } => {
                &&& (email matches Some(e) ==> is_clean(e))
                &&& (name matches Some(n) ==> is_clean(n))
                &&& is_clean(root_sub)
            },
            IdentityView::Machine { sub: _, owner_sub, client_id: _ } => is_clean(owner_sub),
        },
{
    text::lemma_trim_idempotent(claims.sub);
    lemma_non_blank_is_clean(claims.email);
    lemma_non_blank_is_clean(claims.name);
    lemma_non_blank_is_clean(claims.root_sub);
    lemma_non_blank_is_clean(claims.owner_sub);
}

/// Where an email is required, every human has one; machines are not affected.
pub proof fn law_required_email_is_there(claims: ClaimsView, options: VerifyOptions)
    requires
        options.require_email,
    ensures
        identity::principal_verdict(claims, options) matches Ok(
            IdentityView::Human { sub: _, email, name: _, root_sub: _ },
        ) ==> email is Some,
        claims.act == Some("machine"@) ==> identity::principal_verdict(claims, options)
            == identity::principal_verdict(
            claims,
            VerifyOptions { require_email: false, ..options },
        ),
{
}

/// Without a root subject of its own, a human's root identity is the subject.
pub proof fn law_root_defaults_to_subject(claims: ClaimsView, options: VerifyOptions)
    requires
        identity::non_blank(claims.root_sub) is None,
    ensures
        identity::principal_verdict(claims, options) matches Ok(
            IdentityView::Human { sub, email: _, name: _, root_sub },
        ) ==> root_sub == sub,
{
}

/// A config without audiences accepts nothing.
pub proof fn law_empty_allowlist_accepts_nothing(
    config: ConfigView,
    claims: ClaimsView,
    options: VerifyOptions,
    now: i64,
)
    requires
        config.accepted_audiences == Set::<Seq<char>>::empty(),
    ensures
        identity::id_claims_verdict(config, claims, options, now) == Err::<
            VerifiedTokenView,
            AuthErrorView,
        >(AuthErrorView::ClaimMismatch),
        identity::standard_verdict(config, claims, true, now) == Err::<(), AuthErrorView>(
            AuthErrorView::ClaimMismatch,
        ),
{
}

/// A config made from an empty list has no audiences.
pub proof fn law_empty_list_makes_an_empty_allowlist(issuer: Seq<char>)
    ensures
        config::config_for(issuer, Seq::<Seq<char>>::empty()).accepted_audiences == Set::<
            Seq<char>,
        >::empty(),
{
    let none = Seq::<Seq<char>>::empty();
    assert(config::trimmed_set(none) =~= Set::<Seq<char>>::empty());
}

/// An audience more in the list is the same as one that is added later.
pub proof fn law_added_audience_is_listed(
    issuer: Seq<char>,
    audiences: Seq<Seq<char>>,
    audience: Seq<char>,
)
    ensures
        config::config_for(issuer, audiences.push(audience)) == (ConfigView {
            accepted_audiences: config::config_for(issuer, audiences).accepted_audiences.insert(
                text::trim(audience),
            ),
            ..config::config_for(issuer, audiences)
        }),
{
    let all = audiences.push(audience);
    config::lemma_trimmed_set_push(all, audiences.len() as int);
    assert(all.take(audiences.len() as int) =~= audiences);
    assert(all.take(audiences.len() + 1int) =~= all);
}

/// More allowed audiences never turn an accepted token away.
pub proof fn law_allowing_more_accepts_more(
    config: ConfigView,
    claims: ClaimsView,
    options: VerifyOptions,
    now: i64,
    audience: Seq<char>,
)
    requires
        identity::id_claims_verdict(config, claims, options, now) is Ok,
    ensures
        identity::id_claims_verdict(
            ConfigView {
                accepted_audiences: config.accepted_audiences.insert(audience),
                ..config
            },
            claims,
            options,
            now,
        ) == identity::id_claims_verdict(config, claims, options, now),
{
    let i = choose|i: int|
        0 <= i < claims.aud.values().len() && config.accepted_audiences.contains(
            #[trigger] claims.aud.values()[i],
        );
    assert(config.accepted_audiences.insert(audience).contains(claims.aud.values()[i]));
}

/// A token that is accepted was accepted, in the same way, at any time before.
pub proof fn law_expiry_is_final(
    config: ConfigView,
    claims: ClaimsView,
    options: VerifyOptions,
    earlier: i64,
    now: i64,
)
    requires
        earlier <= now,
        identity::id_claims_verdict(config, claims, options, now) is Ok,
    ensures
        identity::id_claims_verdict(config, claims, options, earlier)
            == identity::id_claims_verdict(config, claims, options, now),
{
}

/// What is accepted as an ID token is accepted as a JWS, with the audience
/// checked or not, as long as its claims are a JSON object.
pub proof fn law_id_token_is_a_jws(
    config: ConfigView,
    token: Seq<char>,
    header: Option<HeaderView>,
    reply: Result<Seq<JwkView>, Seq<char>>,
    claims: Option<ClaimsView>,
    options: VerifyOptions,
    validate_aud: bool,
    now: i64,
)
    requires
        verify::id_token_verdict(config, token, header, reply, claims, options, now) is Ok,
        outside::json_object(jwt::decoded(token)->0.claims) is Some,
    ensures
        verify::jws_verdict(config, token, header, reply, claims, validate_aud, now) == Ok::<
            JwsClaimsView,
            AuthErrorView,
        >(
            JwsClaimsView {
                iss: config.issuer,
                sub: claims->0.sub,
                aud: claims->0.aud.values(),
                exp: claims->0.exp,
                raw: outside::json_object(jwt::decoded(token)->0.claims)->0,
            },
        ),
{
}

/// No machine, test or subject policy applies to a JWS: only its issuer, subject,
/// audiences and expiry count.
pub proof fn law_jws_has_no_policy(
    config: ConfigView,
    raw: serde_json::Map<String, serde_json::Value>,
    claims: ClaimsView,
    others: ClaimsView,
    validate_aud: bool,
    now: i64,
)
    requires
        claims.iss == others.iss,
        claims.sub == others.sub,
        claims.aud == others.aud,
        claims.exp == others.exp,
    ensures
        identity::jws_claims_verdict(config, claims, raw, validate_aud, now)
            == identity::jws_claims_verdict(config, others, raw, validate_aud, now),
{
}

/// The audience of a single-valued claim counts as a list of one does.
pub proof fn law_one_audience_is_a_list_of_one(audience: Seq<char>, allowed: Set<Seq<char>>)
    ensures
        AudienceClaimView::One(audience).matches_any(allowed) == AudienceClaimView::Many(
            seq![audience],
        ).matches_any(allowed),
        AudienceClaimView::One(audience).matches_any(allowed) <==> allowed.contains(audience),
        AudienceClaimView::One(audience).single() == AudienceClaimView::Many(
            seq![audience],
        ).single(),
{
    assert(AudienceClaimView::One(audience).values()[0] == audience);
    assert(AudienceClaimView::Many(seq![audience]).values()[0] == audience);
}

/// The address of the keys follows from the issuer alone, so that configs with the
/// same issuer verify against the same keys.
pub proof fn law_keys_follow_the_issuer(
    issuer: Seq<char>,
    other: Seq<char>,
    audiences: Seq<Seq<char>>,
    other_audiences: Seq<Seq<char>>,
)
    ensures
        ({
            let a = config::config_for(issuer, audiences);
            let b = config::config_for(other, other_audiences);
            &&& a.jwks_uri == a.issuer + "/jwks.json"@
            &&& a.issuer == b.issuer <==> a.jwks_uri == b.jwks_uri
        }),
{
    let a = config::config_for(issuer, audiences);
    let b = config::config_for(other, other_audiences);
    reveal_strlit("/jwks.json");
    if a.jwks_uri == b.jwks_uri {
        assert(a.jwks_uri.len() == a.issuer.len() + 10);
        assert(b.jwks_uri.len() == b.issuer.len() + 10);
        assert(a.issuer =~= a.jwks_uri.take(a.issuer.len() as int));
        assert(b.issuer =~= b.jwks_uri.take(b.issuer.len() as int));
    }
}

/// A normalized issuer does not end in a slash and does not begin with whitespace.
/// Normalizing it again changes nothing, unless a slash was preceded by whitespace
/// at its end.
pub proof fn law_normalized_issuer(issuer: Seq<char>)
    ensures
        ({
            let n = config::normalized(issuer);
            &&& n.len() > 0 ==> n.last() != '/' && !text::is_whitespace(n.first())
            &&& n.len() > 0 && !text::is_whitespace(n.last()) ==> config::normalized(n) == n
            &&& n.len() == 0 ==> config::normalized(n) == n
        }),
{
    let n = config::normalized(issuer);
    text::lemma_trim(issuer);
    text::lemma_strip_trailing(text::trim(issuer), '/');
    if n.len() > 0 {
        assert(n.first() == text::trim(issuer).first());
        if !text::is_whitespace(n.last()) {
            assert(text::trim(n) == n);
        }
    }
}

/// Slashes at the end of an issuer make no difference.
pub proof fn law_trailing_slash_makes_no_difference(issuer: Seq<char>, audiences: Seq<Seq<char>>)
    requires
        text::trim(issuer) == issuer,
    ensures
        config::config_for(issuer.push('/'), audiences) == config::config_for(issuer, audiences),
        config::environment_of(issuer.push('/')) == config::environment_of(issuer),
{
    let longer = issuer.push('/');
    assert(longer.drop_last() =~= issuer);
    text::lemma_trim(issuer);
    assert(text::trim_start(longer) == longer);
    assert(text::trim(longer) == longer);
}

/// Every tenant's issuer is a test issuer, whatever it is below.
pub proof fn law_tenants_are_test(base: Seq<char>, tenant: Seq<char>)
    requires
        config::is_tenant(tenant),
    ensures
        config::environment_of(config::test_issuer(base, tenant)) == Environment::Test,
{
    let issuer = config::test_issuer(base, tenant);
    if issuer.last() == '/' {
        assert(tenant[tenant.len() - 1] == issuer.last());
    }
    assert(text::strip_trailing(issuer, '/') == config::test_issuer(base, tenant));
}

/// The segments of a token are not empty, hold no dot and rejoin to the token, and
/// the signature is over everything before the last dot.
pub proof fn law_segments_rejoin(token: Seq<char>)
    ensures
        jwt::parts_of(token) matches Some(parts) ==> {
            &&& parts.header.len() > 0 && !parts.header.contains('.')
            &&& parts.claims.len() > 0 && !parts.claims.contains('.')
            &&& parts.signature.len() > 0 && !parts.signature.contains('.')
            &&& parts.signing_input == parts.header + seq!['.'] + parts.claims
            &&& token == parts.signing_input + seq!['.'] + parts.signature
        },
{
    if jwt::parts_of(token) is Some {
        text::lemma_split_three(token, '.');
        let segments = text::split(token, '.');
        assert(!segments[0].contains('.') && !segments[1].contains('.') && !segments[2].contains(
            '.',
        ));
    }
}

/// Three non-empty segments without a dot in them, joined by dots, are split into
/// those segments again.
pub proof fn law_joined_segments_split(header: Seq<char>, claims: Seq<char>, signature: Seq<char>)
    requires
        header.len() > 0 && !header.contains('.'),
        claims.len() > 0 && !claims.contains('.'),
        signature.len() > 0 && !signature.contains('.'),
    ensures
        jwt::parts_of(header + seq!['.'] + claims + seq!['.'] + signature) == Some(
            PartsView {
                header,
                claims,
                signature,
                signing_input: header + seq!['.'] + claims,
            },
        ),
{
    let token = header + seq!['.'] + claims + seq!['.'] + signature;
    let tail = claims + seq!['.'] + signature;
    assert(token =~= header + seq!['.'] + tail);
    lemma_split_first(header, tail);
    lemma_split_first(claims, signature);
    text::lemma_split_step(signature, '.');
    text::lemma_position(signature, '.');
}

proof fn lemma_split_first(head: Seq<char>, tail: Seq<char>)
    requires
        !head.contains('.'),
    ensures
        text::split(head + seq!['.'] + tail, '.') == seq![head] + text::split(tail, '.'),
{
    let s = head + seq!['.'] + tail;
    text::lemma_split_step(s, '.');
    assert forall|j: int| 0 <= j < head.len() implies s[j] != '.' by {
        assert(s[j] == head[j]);
    }
    text::lemma_position_unique(s, '.', head.len() as int);
    assert(s.take(head.len() as int) =~= head);
    assert(s.skip(head.len() + 1int) =~= tail);
}

/// A bearer credential is never blank and has no whitespace around it.
pub proof fn law_bearer_credential_is_clean(value: Seq<char>)
    ensures
        bearer::bearer_credential(value) matches Some(token) ==> is_clean(token),
{
    text::lemma_trim_idempotent(value.skip(text::position(value, ' ') + 1));
}

/// A credential that was sent under the bearer scheme, in any case of its letters
/// and with any whitespace around the credential, is read back.
pub proof fn law_bearer_credential_is_read_back(
    scheme: Seq<char>,
    sent: Seq<char>,
)
    requires
        text::same_ignoring_ascii_case(scheme, "bearer"@),
    ensures
        bearer::bearer_credential(scheme + seq![' '] + sent) == (if text::trim(sent).len() > 0 {
            Some(text::trim(sent))
        } else {
            None
        }),
{
    let value = scheme + seq![' '] + sent;
    reveal_strlit("bearer");
    assert forall|j: int| 0 <= j < scheme.len() implies value[j] != ' ' by {
        assert(text::ascii_lowercase(scheme[j]) == text::ascii_lowercase("bearer"@[j]));
        assert(value[j] == scheme[j]);
    }
    text::lemma_position_unique(value, ' ', scheme.len() as int);
    assert(value.take(scheme.len() as int) =~= scheme);
    assert(value.skip(scheme.len() + 1int) =~= sent);
}

} // verus!

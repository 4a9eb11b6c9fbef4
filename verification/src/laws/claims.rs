//! What each verdict on claims says of the claims, clause by clause.

use crate::audience::AudienceClaimView;
use crate::config::{ConfigView, Environment};
use crate::error::AuthErrorView;
use crate::identity::{ClaimsView, IdentityView, JwsClaimsView, VerifiedTokenView, VerifyOptions};
use crate::verify::AwaitingClaimsView;
use crate::{config, identity, outside, text, verify};
use vstd::prelude::*;

verus! {

/// Whether claims are addressed to someone in an allowlist.
pub open spec fn is_addressed(aud: AudienceClaimView, allowed: Set<Seq<char>>) -> bool {
    match aud {
        AudienceClaimView::One(audience) => allowed.contains(audience),
        AudienceClaimView::Many(audiences) => exists|i: int|
            0 <= i < audiences.len() && allowed.contains(#[trigger] audiences[i]),
    }
}

/// An `aud` claim names the audiences that it lists, in their order, and all of
/// them; it matches when one of them is allowed; and it is single when it lists one.
pub proof fn law_audiences_are_those_listed(aud: AudienceClaimView, allowed: Set<Seq<char>>)
    ensures
        match aud {
            AudienceClaimView::One(audience) => {
                &&& aud.values().len() == 1
                &&& aud.values()[0] == audience
                &&& aud.single() == Some(audience)
            },
            AudienceClaimView::Many(audiences) => {
                &&& aud.values() == audiences
                &&& aud.single() is Some <==> audiences.len() == 1
                &&& audiences.len() == 1 ==> aud.single() == Some(audiences[0])
            },
        },
        aud.matches_any(allowed) <==> is_addressed(aud, allowed),
{
    match aud {
        AudienceClaimView::One(audience) => {
            assert(aud.values()[0] == audience);
        },
        AudienceClaimView::Many(_) => {},
    }
}

/// Whether the issuer and, where that is asked for, the audience are right.
pub open spec fn is_for(config: ConfigView, claims: ClaimsView, validate_aud: bool) -> bool {
    &&& claims.iss == config.issuer
    &&& validate_aud ==> is_addressed(claims.aud, config.accepted_audiences)
}

/// The standard claims are accepted exactly when the issuer is the configured one,
/// an audience is allowed where that is asked for, and the expiry lies after `now`.
/// A wrong issuer or audience is told before an expiry that has passed.
pub proof fn law_standard_claims(
    config: ConfigView,
    claims: ClaimsView,
    validate_aud: bool,
    now: i64,
)
    ensures
        ({
            let verdict = identity::standard_verdict(config, claims, validate_aud, now);
            &&& verdict is Ok <==> is_for(config, claims, validate_aud) && claims.exp > now
            &&& verdict == Err::<(), AuthErrorView>(AuthErrorView::ClaimMismatch) <==> !is_for(
                config,
                claims,
                validate_aud,
            )
            &&& verdict == Err::<(), AuthErrorView>(AuthErrorView::Expired) <==> is_for(
                config,
                claims,
                validate_aud,
            ) && claims.exp <= now
        }),
{
    law_audiences_are_those_listed(claims.aud, config.accepted_audiences);
}

/// A token is of the test environment exactly when its `test` claim is there and
/// true.
pub proof fn law_test_claim_is_the_environment(claims: ClaimsView)
    ensures
        identity::token_environment(claims) == Environment::Test <==> claims.test == Some(true),
        identity::token_environment(claims) == Environment::Production <==> claims.test
            != Some(true),
{
}

/// Whether a text is made of whitespace alone.
pub open spec fn is_blank(s: Seq<char>) -> bool {
    forall|i: int| 0 <= i < s.len() ==> text::is_whitespace(#[trigger] s[i])
}

/// Whether a claim is absent or blank.
pub open spec fn is_missing(claim: Option<Seq<char>>) -> bool {
    match claim {
        Some(value) => is_blank(value),
        None => true,
    }
}

/// Whether a field is a claim without surrounding whitespace, and absent exactly
/// when the claim is missing.
pub open spec fn is_taken_from(field: Option<Seq<char>>, claim: Option<Seq<char>>) -> bool {
    match field {
        Some(value) => claim is Some && value == text::trim(claim->0) && value.len() > 0,
        None => is_missing(claim),
    }
}

/// Nothing is left of a text without its surrounding whitespace exactly when it is
/// blank.
pub proof fn law_blank_texts_trim_to_nothing(s: Seq<char>)
    ensures
        text::trim(s).len() == 0 <==> is_blank(s),
{
    text::lemma_trim(s);
    let (i, j) = choose|i: int, j: int|
        #![trigger s.subrange(i, j)]
        {
            &&& 0 <= i <= j <= s.len()
            &&& text::trim(s) == s.subrange(i, j)
            &&& forall|k: int|
                0 <= k < s.len() && !(i <= k < j) ==> text::is_whitespace(#[trigger] s[k])
        };
    if i < j {
        assert(text::trim(s).first() == s[i]);
    }
}

/// A claim that is not missing is taken without its surrounding whitespace.
pub proof fn law_claims_are_taken_trimmed(claim: Option<Seq<char>>)
    ensures
        is_taken_from(identity::non_blank(claim), claim),
        identity::non_blank(claim) is None <==> is_missing(claim),
{
    if let Some(value) = claim {
        law_blank_texts_trim_to_nothing(value);
    }
}

/// Whether a text can be a subject: 1 to 128 characters, none of them a control
/// character.
pub open spec fn can_be_subject(sub: Seq<char>) -> bool {
    &&& sub.len() >= 1
    &&& sub.len() <= 128
    &&& forall|i: int|
        0 <= i < sub.len() ==> !(#[trigger] sub[i] <= '\u{1f}' || '\u{7f}' <= sub[i] <= '\u{9f}')
}

/// What a subject is.
pub proof fn law_subjects(sub: Seq<char>)
    ensures
        identity::is_subject(sub) <==> can_be_subject(sub),
{
    if identity::is_subject(sub) {
        assert forall|i: int| 0 <= i < sub.len() implies !(#[trigger] sub[i] <= '\u{1f}'
            || '\u{7f}' <= sub[i] <= '\u{9f}') by {
            assert(!text::is_control(sub[i]));
        }
    }
}

/// Whether a token says that it is a machine's.
pub open spec fn says_machine(claims: ClaimsView) -> bool {
    claims.act matches Some(act) && act == "machine"@
}

/// Whether an `aud` claim names one audience and no more.
pub open spec fn names_one(aud: AudienceClaimView) -> bool {
    match aud {
        AudienceClaimView::One(_) => true,
        AudienceClaimView::Many(audiences) => audiences.len() == 1,
    }
}

/// Whether an `aud` claim names this audience and no other.
pub open spec fn names_only(aud: AudienceClaimView, audience: Seq<char>) -> bool {
    match aud {
        AudienceClaimView::One(named) => named == audience,
        AudienceClaimView::Many(named) => named.len() == 1 && named[0] == audience,
    }
}

/// Every field of an identity is the claim of that name, whatever the other claims
/// are. Of a human: the subject, email and name without surrounding whitespace, the
/// latter two absent exactly when the claim is missing; and the root subject, or the
/// subject when that claim is missing. Of a machine: the subject and the owner
/// without surrounding whitespace, and the only audience as it stands.
pub proof fn law_identity_holds_the_claims(claims: ClaimsView, options: VerifyOptions)
    requires
        identity::principal_verdict(claims, options) is Ok,
    ensures
        match identity::principal_verdict(claims, options)->Ok_0 {
            IdentityView::Human { sub, email, name, root_sub } => {
                &&& !says_machine(claims)
                &&& sub == text::trim(claims.sub)
                &&& is_taken_from(email, claims.email)
                &&& is_taken_from(name, claims.name)
                &&& is_missing(claims.root_sub) ==> root_sub == sub
                &&& !is_missing(claims.root_sub) ==> root_sub == text::trim(claims.root_sub->0)
            },
            IdentityView::Machine { sub, owner_sub, client_id } => {
                &&& says_machine(claims)
                &&& sub == text::trim(claims.sub)
                &&& is_taken_from(Some(owner_sub), claims.owner_sub)
                &&& names_only(claims.aud, client_id)
            },
        },
        identity::principal_verdict(claims, options)->Ok_0.sub() == text::trim(claims.sub),
{
    law_claims_are_taken_trimmed(claims.email);
    law_claims_are_taken_trimmed(claims.name);
    law_claims_are_taken_trimmed(claims.root_sub);
    law_claims_are_taken_trimmed(claims.owner_sub);
}

/// A principal is refused for the first of these that holds, and accepted when none
/// does: the subject cannot be one; a machine is not accepted here; it names no owner
/// or not exactly one audience; or a human's email is required and missing.
pub proof fn law_principals_are_refused_for(claims: ClaimsView, options: VerifyOptions)
    ensures
        ({
            let verdict = identity::principal_verdict(claims, options);
            let clean = can_be_subject(text::trim(claims.sub));
            let machine = says_machine(claims);
            let whole = !is_missing(claims.owner_sub) && names_one(claims.aud);
            let mute = options.require_email && is_missing(claims.email);
            &&& verdict is Ok <==> clean && (machine ==> options.accept_machine && whole) && (
            !machine ==> !mute)
            &&& verdict == Err::<IdentityView, AuthErrorView>(AuthErrorView::InvalidSubject)
                <==> !clean
            &&& verdict == Err::<IdentityView, AuthErrorView>(AuthErrorView::MachineNotAllowed)
                <==> clean && machine && !options.accept_machine
            &&& verdict == Err::<IdentityView, AuthErrorView>(AuthErrorView::MalformedMachineToken)
                <==> clean && machine && options.accept_machine && !whole
            &&& verdict == Err::<IdentityView, AuthErrorView>(AuthErrorView::EmailRequired)
                <==> clean && !machine && mute
        }),
{
    law_subjects(text::trim(claims.sub));
    law_claims_are_taken_trimmed(claims.email);
    law_claims_are_taken_trimmed(claims.owner_sub);
    law_audiences_are_those_listed(claims.aud, Set::empty());
}

/// The verdict on ID claims: a wrong issuer or audience, then an expiry that has
/// passed, then an environment that is not the configured issuer's, then whatever is
/// wrong with the principal. Accepted claims give the principal and the environment
/// of the configured issuer.
pub proof fn law_id_claims(
    config: ConfigView,
    claims: ClaimsView,
    options: VerifyOptions,
    now: i64,
)
    ensures
        ({
            let verdict = identity::id_claims_verdict(config, claims, options, now);
            let principal = identity::principal_verdict(claims, options);
            let test = config::is_test_issuer(config.issuer);
            let home = (claims.test == Some(true)) == test;
            if !is_for(config, claims, true) {
                verdict == Err::<VerifiedTokenView, AuthErrorView>(AuthErrorView::ClaimMismatch)
            } else if claims.exp <= now {
                verdict == Err::<VerifiedTokenView, AuthErrorView>(AuthErrorView::Expired)
            } else if !home {
                verdict == Err::<VerifiedTokenView, AuthErrorView>(
                    AuthErrorView::EnvironmentMismatch,
                )
            } else if principal is Err {
                verdict == Err::<VerifiedTokenView, AuthErrorView>(principal->Err_0)
            } else {
                &&& verdict is Ok
                &&& verdict->Ok_0.identity == principal->Ok_0
                &&& verdict->Ok_0.environment == (if test {
                    Environment::Test
                } else {
                    Environment::Production
                })
            }
        }),
{
    law_standard_claims(config, claims, true, now);
}

/// An accepted JWS gives back its own claims: the issuer, subject and expiry as they
/// stand, every audience that it names, in order, whether or not it is allowed, and
/// all members of its JSON object.
pub proof fn law_jws_gives_its_claims_back(
    config: ConfigView,
    claims: ClaimsView,
    raw: serde_json::Map<String, serde_json::Value>,
    validate_aud: bool,
    now: i64,
)
    ensures
        ({
            let verdict = identity::jws_claims_verdict(config, claims, raw, validate_aud, now);
            &&& verdict is Ok <==> is_for(config, claims, validate_aud) && claims.exp > now
            &&& verdict == Err::<JwsClaimsView, AuthErrorView>(AuthErrorView::ClaimMismatch)
                <==> !is_for(config, claims, validate_aud)
            &&& verdict == Err::<JwsClaimsView, AuthErrorView>(AuthErrorView::Expired) <==> is_for(
                config,
                claims,
                validate_aud,
            ) && claims.exp <= now
            &&& verdict matches Ok(given) ==> {
                &&& given.iss == claims.iss
                &&& given.sub == claims.sub
                &&& given.exp == claims.exp
                &&& given.raw == raw
                &&& claims.aud matches AudienceClaimView::One(audience) ==> given.aud.len() == 1
                    && given.aud[0] == audience
                &&& claims.aud matches AudienceClaimView::Many(audiences) ==> given.aud
                    == audiences
            }
        }),
{
    law_standard_claims(config, claims, validate_aud, now);
    law_audiences_are_those_listed(claims.aud, config.accepted_audiences);
}

/// Claims that could not be parsed are malformed. Others are judged as they are,
/// under the config that came with the token.
pub proof fn law_id_token_is_judged_by_its_claims(
    last: AwaitingClaimsView,
    claims: Option<ClaimsView>,
    options: VerifyOptions,
    now: i64,
)
    ensures
        match claims {
            None => last.id_token_verdict(claims, options, now) == Err::<
                VerifiedTokenView,
                AuthErrorView,
            >(AuthErrorView::MalformedToken),
            Some(read) => last.id_token_verdict(claims, options, now)
                == identity::id_claims_verdict(last.config, read, options, now),
        },
{
}

/// A JWS is malformed when its claims are not a JSON object or could not be parsed.
/// Other claims are judged as they are, under the config that came with the token,
/// and given back with the JSON object in the token.
pub proof fn law_jws_is_judged_by_its_claims(
    last: AwaitingClaimsView,
    raw: Option<serde_json::Map<String, serde_json::Value>>,
    claims: Option<ClaimsView>,
    validate_aud: bool,
    now: i64,
)
    ensures
        ({
            let verdict = verify::jws_verdict_on(last.config, raw, claims, validate_aud, now);
            &&& raw is None || claims is None ==> verdict == Err::<JwsClaimsView, AuthErrorView>(
                AuthErrorView::MalformedToken,
            )
            &&& raw is Some && claims is Some ==> verdict == identity::jws_claims_verdict(
                last.config,
                claims->0,
                raw->0,
                validate_aud,
                now,
            )
            &&& raw == outside::json_object(last.claims) ==> last.jws_verdict(
                claims,
                validate_aud,
                now,
            ) == verdict
        }),
{
}

/// Nothing is accepted at or past its expiry by a reading of the clock, whatever the
/// config, the claims and the options are; and what is refused as expired is.
pub proof fn law_nothing_is_accepted_past_its_expiry(
    last: AwaitingClaimsView,
    claims: Option<ClaimsView>,
    options: VerifyOptions,
    validate_aud: bool,
    now: i64,
)
    requires
        verify::clock_reads(now),
    ensures
        last.id_token_verdict(claims, options, now) is Ok ==> claims is Some && claims->0.exp > now,
        last.jws_verdict(claims, validate_aud, now) is Ok ==> claims is Some && claims->0.exp > now,
        last.id_token_verdict(claims, options, now) == Err::<VerifiedTokenView, AuthErrorView>(
            AuthErrorView::Expired,
        ) ==> claims is Some && claims->0.exp <= now,
        last.jws_verdict(claims, validate_aud, now) == Err::<JwsClaimsView, AuthErrorView>(
            AuthErrorView::Expired,
        ) ==> claims is Some && claims->0.exp <= now,
{
    if let Some(read) = claims {
        law_id_claims(last.config, read, options, now);
        law_principals_are_refused_for(read, options);
    }
}

} // verus!

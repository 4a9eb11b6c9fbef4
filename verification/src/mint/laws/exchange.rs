//! What is asked of the issuer, and what its answers come to.

use crate::mint;
use crate::mint::{
    MintCacheView, MintConfigView, MintErrorView, MintStepView, OutcomeView, ReplyPlanView,
    TokenRequestView, TokenResponse,
};
use crate::{outside, text};
use vstd::prelude::*;

verus! {

/// Whether a request is the one of a client: it authenticates with the client's id
/// and secret as they stand, goes to the issuer, without the slashes at its end, and
/// `/token`, and carries the client-credentials grant as a form.
pub open spec fn is_request_of(
    request: TokenRequestView,
    config: MintConfigView,
    base: Seq<char>,
) -> bool {
    &&& request.username == config.client_id
    &&& request.password == config.client_secret
    &&& base.len() <= config.issuer.len()
    &&& base == config.issuer.take(base.len() as int)
    &&& base.len() > 0 ==> base.last() != '/'
    &&& forall|i: int| base.len() <= i < config.issuer.len() ==> #[trigger] config.issuer[i] == '/'
    &&& request.url == base + "/token"@
    &&& request.content_type == "application/x-www-form-urlencoded"@
    &&& request.body == "grant_type=client_credentials"@
}

/// Whatever the cache held, and whenever it is asked, a request that it asks for is
/// the one of its client.
pub proof fn law_request_is_the_clients(cache: MintCacheView, now: nat)
    ensures
        cache.step(now) matches MintStepView::Request(request) ==> exists|base: Seq<char>|
            is_request_of(request, cache.config, base),
        exists|base: Seq<char>| is_request_of(mint::request_for(cache.config), cache.config, base),
{
    let base = text::strip_trailing(cache.config.issuer, '/');
    text::lemma_strip_trailing(cache.config.issuer, '/');
    assert(is_request_of(mint::request_for(cache.config), cache.config, base));
    if let MintStepView::Request(request) = cache.step(now) {
        assert(is_request_of(request, cache.config, base));
    }
}

/// Two clients of an issuer send the same request only when they have the same
/// credential.
pub proof fn law_requests_tell_clients_apart(config: MintConfigView, other: MintConfigView)
    requires
        mint::request_for(config) == mint::request_for(other),
    ensures
        config.client_id == other.client_id,
        config.client_secret == other.client_secret,
{
}

/// Whatever the issuer answers with success and a readable body, the outcome is that
/// token with that lifetime. The caller is given exactly that token, at once and
/// later from the cache, for as long as it is fresh.
pub proof fn law_issuers_token_reaches_the_caller(
    cache: MintCacheView,
    status: u16,
    response: TokenResponse,
    body: Seq<char>,
    minted: nat,
    now: nat,
)
    requires
        200 <= status < 300,
        minted <= now,
    ensures
        ({
            let outcome = mint::reply_outcome(status, Ok(response), body);
            let after = cache.settled(minted, outcome);
            let lifetime = match response.expires_in {
                Some(secs) => secs as nat * 1_000_000_000,
                None => cache.config.policy.default_lifetime,
            };
            &&& outcome is Success
            &&& outcome->id_token == response.id_token@
            &&& outcome->expires_in == response.expires_in
            &&& mint::outcome_result(outcome) == Ok::<Seq<char>, MintErrorView>(response.id_token@)
            &&& after.config == cache.config
            &&& now + cache.config.policy.refresh_skew < minted + lifetime ==> after.step(now)
                == MintStepView::Done(Ok(response.id_token@))
            &&& now + cache.config.policy.refresh_skew >= minted + lifetime ==> after.step(
                now,
            ) is Request
        }),
{
}

/// The token of a body is taken as it stands, and a body that could not be read is
/// told with the reason as it stands.
pub proof fn law_bodies_of_successes(body: Result<TokenResponse, String>)
    ensures
        match body {
            Ok(response) => {
                &&& mint::token_outcome(body) is Success
                &&& mint::token_outcome(body)->id_token == response.id_token@
                &&& mint::token_outcome(body)->expires_in == response.expires_in
            },
            Err(reason) => mint::token_outcome(body) == OutcomeView::Transient(
                "unreadable token response: "@ + reason@,
            ),
        },
{
}

/// Which answer comes to what: a success is read as a token; 429 is transient; any
/// other client error is a rejection; and everything else is transient and told with
/// its status.
pub proof fn law_answers(
    status: u16,
    token: Result<TokenResponse, String>,
    body: Seq<char>,
)
    ensures
        ({
            let outcome = mint::reply_outcome(status, token, body);
            let plan = mint::reply_plan(status);
            if 200 <= status < 300 {
                plan is ReadToken && outcome == mint::token_outcome(token)
            } else if status == 429 {
                outcome == OutcomeView::Transient("HTTP 429 (rate limited)"@) && plan
                    == ReplyPlanView::Settled(outcome)
            } else if 400 <= status < 500 {
                plan is ReadRejection && outcome == OutcomeView::Permanent(
                    "HTTP "@ + outside::status_text(status) + ": "@ + mint::quoted(body),
                )
            } else {
                outcome == OutcomeView::Transient("HTTP "@ + outside::status_text(status)) && plan
                    == ReplyPlanView::Settled(outcome)
            }
        }),
{
}

/// A rejection is told with its status and as much of its body as is quoted.
pub proof fn law_rejections_are_told(status_text: Seq<char>, body: Seq<char>)
    ensures
        mint::rejection_outcome(status_text, body) == OutcomeView::Permanent(
            "HTTP "@ + status_text + ": "@ + mint::quoted(body),
        ),
{
}

/// The caller is given what came of the request, as it stands: the token, or the
/// message under the right reason.
pub proof fn law_outcome_is_given_to_the_caller(outcome: OutcomeView)
    ensures
        match outcome {
            OutcomeView::Success { id_token, expires_in: _ } => mint::outcome_result(outcome)
                == Ok::<Seq<char>, MintErrorView>(id_token),
            OutcomeView::Permanent(message) => mint::outcome_result(outcome) == Err::<
                Seq<char>,
                MintErrorView,
            >(MintErrorView::Rejected(message)),
            OutcomeView::Transient(message) => mint::outcome_result(outcome) == Err::<
                Seq<char>,
                MintErrorView,
            >(MintErrorView::Transient(message)),
        },
{
}

/// A message reaches the caller whole, and the cache says so again after a rejection
/// only by how long to wait.
pub proof fn law_rejection_is_followed_by_the_wait(
    cache: MintCacheView,
    status: u16,
    token: Result<TokenResponse, String>,
    body: Seq<char>,
    rejected: nat,
    now: nat,
)
    requires
        400 <= status < 500,
        status != 429,
        rejected <= now,
    ensures
        ({
            let outcome = mint::reply_outcome(status, token, body);
            let after = cache.settled(rejected, outcome);
            &&& mint::outcome_result(outcome) matches Err(MintErrorView::Rejected(message))
                && message == "HTTP "@ + outside::status_text(status) + ": "@ + mint::quoted(body)
            &&& after.state is Rejected
            &&& after.state->Rejected_fingerprint == cache.fingerprint()
            &&& now < after.state->until ==> after.step(now) == MintStepView::Done(
                Err(MintErrorView::Suppressed { retry_after: (after.state->until - now) as nat }),
            )
            &&& now >= after.state->until ==> after.step(now) is Request
        }),
{
}

} // verus!

//! What the caches hold and do, state by state.

use crate::mint;
use crate::mint::{
    DecisionView, MintCacheView, MintErrorView, MintStepView, OutcomeView, PolicyView, StateView,
};
use std::collections::hash_map::DefaultHasher;
use vstd::prelude::*;
use vstd::std_specs::hash::DefaultHasherAdditionalSpecFns;

verus! {

/// A token is served exactly when it was minted with this credential and is still
/// fresh; a credential is suppressed exactly when it was rejected and its backoff has
/// not passed, for as long as is left of that; and else a token is minted.
pub proof fn law_decisions(state: StateView, fingerprint: u64, now: nat)
    ensures
        match mint::decision(state, fingerprint, now) {
            DecisionView::Serve(served) => state matches StateView::Valid {
                token,
                expires_at,
                fingerprint: held,
            } && held == fingerprint && now < expires_at && served == token,
            DecisionView::Suppress(wait) => state matches StateView::Rejected {
                fingerprint: held,
                until,
                consecutive: _,
            } && held == fingerprint && wait > 0 && now + wait == until,
            DecisionView::Mint => match state {
                StateView::Empty => true,
                StateView::Valid { token: _, expires_at, fingerprint: held } => held != fingerprint
                    || expires_at <= now,
                StateView::Rejected { fingerprint: held, until, consecutive: _ } => held
                    != fingerprint || until <= now,
            },
        },
{
}

/// A decision is carried out as it is: a served token is given, a wait is told, and
/// else a request is asked for.
pub proof fn law_decisions_are_carried_out(cache: MintCacheView, now: nat)
    ensures
        match mint::decision(cache.state, cache.fingerprint(), now) {
            DecisionView::Serve(token) => cache.step(now) == MintStepView::Done(Ok(token)),
            DecisionView::Suppress(wait) => cache.step(now) == MintStepView::Done(
                Err(MintErrorView::Suppressed { retry_after: wait }),
            ),
            DecisionView::Mint => cache.step(now) is Request,
        },
{
}

/// What the cache holds after an outcome. After a success: that token, under the
/// credential it was minted with, until its lifetime less the refresh skew has
/// passed. After a rejection: the credential, one more rejection in a row, and the
/// backoff for that many. After a transient failure: what it held before.
pub proof fn law_outcomes_are_remembered(
    prev: StateView,
    fingerprint: u64,
    now: nat,
    outcome: OutcomeView,
    policy: PolicyView,
)
    ensures
        match outcome {
            OutcomeView::Success { id_token, expires_in } => {
                let lifetime = match expires_in {
                    Some(secs) => secs as nat * 1_000_000_000,
                    None => policy.default_lifetime,
                };
                mint::next_state(prev, fingerprint, now, outcome, policy) matches Some(
                    StateView::Valid { token, expires_at, fingerprint: held },
                ) && token == id_token && held == fingerprint && (if policy.refresh_skew
                    <= lifetime {
                    expires_at + policy.refresh_skew == now + lifetime
                } else {
                    expires_at == now
                })
            },
            OutcomeView::Permanent(_) => mint::next_state(
                prev,
                fingerprint,
                now,
                outcome,
                policy,
            ) matches Some(StateView::Rejected { fingerprint: held, until, consecutive }) && held
                == fingerprint && consecutive == mint::rejections(prev, fingerprint) && until == now
                + mint::backoff(consecutive as nat, policy),
            OutcomeView::Transient(_) => mint::next_state(prev, fingerprint, now, outcome, policy)
                is None,
        },
{
}

/// A rejection counts one more than the last one when that was of the same
/// credential, as far as can be counted, and else as the first.
pub proof fn law_rejections_in_a_row(prev: StateView, fingerprint: u64)
    ensures
        match prev {
            StateView::Rejected { fingerprint: held, until: _, consecutive } => if held
                != fingerprint {
                mint::rejections(prev, fingerprint) == 1
            } else if consecutive == u32::MAX {
                mint::rejections(prev, fingerprint) == u32::MAX
            } else {
                mint::rejections(prev, fingerprint) == consecutive + 1
            },
            _ => mint::rejections(prev, fingerprint) == 1,
        },
{
}

/// The shorter of two waits.
pub open spec fn shorter(a: nat, b: nat) -> nat {
    if a < b {
        a
    } else {
        b
    }
}

/// The first rejection is followed by the base wait or the cap, whichever is shorter,
/// and each further one by twice the wait before or the cap, whichever is shorter.
pub proof fn law_waits(consecutive: nat, policy: PolicyView)
    requires
        consecutive >= 1,
    ensures
        mint::backoff(0, policy) == shorter(policy.negative_base, policy.negative_cap),
        mint::backoff(1, policy) == shorter(policy.negative_base, policy.negative_cap),
        mint::backoff(consecutive + 1, policy) == shorter(
            mint::backoff(consecutive, policy) + mint::backoff(consecutive, policy),
            policy.negative_cap,
        ),
{
    mint::laws::law_backoff_doubles_up_to_the_cap(consecutive, policy);
}

/// The caches go on with what the outcome left, and the config stays.
pub proof fn law_cache_goes_on(cache: MintCacheView, now: nat, outcome: OutcomeView)
    ensures
        cache.settled(now, outcome).config == cache.config,
        match mint::next_state(
            cache.state,
            cache.fingerprint(),
            now,
            outcome,
            cache.config.policy,
        ) {
            Some(state) => cache.settled(now, outcome).state == state,
            None => cache.settled(now, outcome).state == cache.state,
        },
        cache.pending(now, outcome) == mint::next_state(
            cache.state,
            cache.fingerprint(),
            now,
            outcome,
            cache.config.policy,
        ),
{
}

/// The fingerprint is the hash of the id, a separator between two ends of text, and
/// the secret: it rests on the credential alone and on all of it.
pub proof fn law_fingerprint_is_of_the_credential(cache: MintCacheView, writes: Seq<Seq<u8>>)
    requires
        writes.len() == 5,
        writes[0] == vstd::utf8::encode_utf8(cache.config.client_id),
        writes[1] == seq![0xffu8],
        writes[2] == seq![0xffu8],
        writes[3] == vstd::utf8::encode_utf8(cache.config.client_secret),
        writes[4] == seq![0xffu8],
    ensures
        cache.fingerprint() == DefaultHasher::spec_finish(writes),
        mint::credential_writes(cache.config.client_id, cache.config.client_secret) == writes,
{
    assert(mint::credential_writes(cache.config.client_id, cache.config.client_secret) =~= writes);
}

/// A state can be held exactly when its deadline is no later than the latest point in
/// time.
pub proof fn law_reachable_deadlines(state: Option<StateView>)
    ensures
        match state {
            Some(StateView::Valid { token: _, expires_at, fingerprint: _ }) => mint::deadline_fits(
                state,
            ) <==> expires_at <= 9_223_372_036_854_775_807_999_999_999nat,
            Some(StateView::Rejected { fingerprint: _, until, consecutive: _ }) =>
            mint::deadline_fits(state) <==> until <= 9_223_372_036_854_775_807_999_999_999nat,
            _ => mint::deadline_fits(state),
        },
{
}

/// The default policy, in nanoseconds: a minute of skew, a first wait of a minute, no
/// wait beyond an hour, and a lifetime of ten minutes.
pub proof fn law_default_policy()
    ensures
        mint::default_policy().refresh_skew == 60_000_000_000,
        mint::default_policy().negative_base == 60_000_000_000,
        mint::default_policy().negative_cap == 3_600_000_000_000,
        mint::default_policy().default_lifetime == 600_000_000_000,
{
}

} // verus!

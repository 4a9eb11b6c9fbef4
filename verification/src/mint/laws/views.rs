//! What is read off the types of minting: every field shows what it holds, under its
//! own name.

use crate::mint;
use crate::mint::{
    CacheDecision, DecisionView, MintConfig, MintError, MintErrorView, MintPolicy, MintResult,
    MintStep, MintStepView, Outcome, OutcomeView, ReplyPlan, ReplyPlanView, State, StateView,
    TokenRequest,
};
use vstd::prelude::*;

verus! {

/// Policies and configs show what they hold.
pub proof fn law_configs_show_what_they_hold(policy: MintPolicy, config: MintConfig)
    ensures
        policy@.refresh_skew == policy.refresh_skew@,
        policy@.negative_base == policy.negative_base@,
        policy@.negative_cap == policy.negative_cap@,
        policy@.default_lifetime == policy.default_lifetime@,
        config@.issuer == config.issuer@,
        config@.client_id == config.client_id@,
        config@.client_secret == config.client_secret@,
        config@.policy == config.policy@,
{
}

/// A request shows what it holds.
pub proof fn law_requests_show_what_they_hold(request: TokenRequest)
    ensures
        request@.url == request.url@,
        request@.username == request.username@,
        request@.password == request.password@,
        request@.content_type == request.content_type@,
        request@.body == request.body@,
{
}

/// An outcome shows what it holds.
pub proof fn law_outcomes_show_what_they_hold(outcome: Outcome)
    ensures
        match outcome {
            Outcome::Success { id_token, expires_in } => outcome@ matches OutcomeView::Success {
                id_token: shown,
                expires_in: stated,
            } && shown == id_token@ && stated == expires_in,
            Outcome::Permanent(message) => outcome@ == OutcomeView::Permanent(message@),
            Outcome::Transient(message) => outcome@ == OutcomeView::Transient(message@),
        },
{
}

/// A plan for a reply shows what it holds.
pub proof fn law_plans_show_what_they_hold(plan: ReplyPlan)
    ensures
        match plan {
            ReplyPlan::ReadToken => plan@ is ReadToken,
            ReplyPlan::ReadRejection => plan@ is ReadRejection,
            ReplyPlan::Settled(outcome) => plan@ == ReplyPlanView::Settled(outcome@),
        },
{
}

/// Errors and results show what they hold.
pub proof fn law_results_show_what_they_hold(error: MintError, result: MintResult)
    ensures
        match error {
            MintError::Rejected(message) => error@ == MintErrorView::Rejected(message@),
            MintError::Suppressed { retry_after } => error@ matches MintErrorView::Suppressed {
                retry_after: shown,
            } && shown == retry_after@,
            MintError::Transient(message) => error@ == MintErrorView::Transient(message@),
        },
        match result {
            Ok(token) => mint::result_view(result) == Ok::<Seq<char>, MintErrorView>(token@),
            Err(held) => mint::result_view(result) == Err::<Seq<char>, MintErrorView>(held@),
        },
{
}

/// A state shows what it holds.
pub proof fn law_states_show_what_they_hold(state: State)
    ensures
        match state {
            State::Empty => state@ is Empty,
            State::Valid { token, expires_at, fingerprint } => state@ matches StateView::Valid {
                token: shown,
                expires_at: deadline,
                fingerprint: credential,
            } && shown == token@ && deadline == expires_at@ && credential == fingerprint,
            State::Rejected { fingerprint, until, consecutive } => state@
                matches StateView::Rejected {
                fingerprint: credential,
                until: deadline,
                consecutive: count,
            } && credential == fingerprint && deadline == until@ && count == consecutive,
        },
        mint::state_view(Some(state)) == Some(state@),
        mint::state_view(None) is None,
{
}

/// Decisions and steps show what they hold.
pub proof fn law_steps_show_what_they_hold(decision: CacheDecision, step: MintStep)
    ensures
        match decision {
            CacheDecision::Serve(token) => decision@ == DecisionView::Serve(token@),
            CacheDecision::Suppress(wait) => decision@ == DecisionView::Suppress(wait@),
            CacheDecision::Mint => decision@ is Mint,
        },
        match step {
            MintStep::Done(result) => step@ == MintStepView::Done(mint::result_view(result)),
            MintStep::Request(request) => step@ == MintStepView::Request(request@),
        },
{
}

} // verus!

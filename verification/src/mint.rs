//! Machine-token minting for confidential clients (the `client_credentials`
//! grant), with a positive token cache, a credential-keyed negative cache, and
//! capped exponential backoff on permanent rejections.
//!
//! A confidential client that mints on a fixed schedule with a bad, stale or
//! deleted credential would otherwise hammer the issuer's `/token` forever. The
//! negative cache turns that into a handful of calls per day, while never
//! silencing the error: every permanent rejection is returned as
//! [`MintError::Rejected`].
//!
//! The negative cache is keyed by a fingerprint of `(client_id, client_secret)`:
//! a rejected credential is retried only on the backoff schedule, and a new one
//! is tried at once. The same credential made valid again on the server is
//! noticed after at most `negative_cap`.
//!
//! Transient failures (HTTP 5xx/429, network, timeout) are not cached; they are
//! reported as [`MintError::Transient`] and retried on the next call.

pub mod laws;

use crate::clock::{Duration, Instant};
use crate::text;
use std::collections::hash_map::DefaultHasher;
use std::hash::Hasher;
use vstd::prelude::*;
use vstd::std_specs::hash::DefaultHasherAdditionalSpecFns;

verus! {

/// Tuning knobs for the caches and backoff. [`Default`] is production-sane.
#[derive(Clone, Debug)]
pub struct MintPolicy {
    /// Re-mint this long before the cached token's stated expiry, so callers
    /// never present an about-to-expire token.
    pub refresh_skew: Duration,
    /// Backoff after the first permanent rejection. Doubles with each
    /// consecutive rejection, capped at `negative_cap`.
    pub negative_base: Duration,
    /// Ceiling on the permanent-rejection backoff. Also bounds how long a client
    /// stays suppressed after a same-credential server-side fix.
    pub negative_cap: Duration,
    /// Assumed token lifetime when the issuer omits `expires_in`.
    pub default_lifetime: Duration,
}

/// What a [`MintPolicy`] says, in nanoseconds.
pub struct PolicyView {
    pub refresh_skew: nat,
    pub negative_base: nat,
    pub negative_cap: nat,
    pub default_lifetime: nat,
}

impl View for MintPolicy {
    type V = PolicyView;

    open spec fn view(&self) -> PolicyView {
        PolicyView {
            refresh_skew: self.refresh_skew@,
            negative_base: self.negative_base@,
            negative_cap: self.negative_cap@,
            default_lifetime: self.default_lifetime@,
        }
    }
}

/// Nanoseconds in `secs` seconds.
pub open spec fn seconds(secs: nat) -> nat {
    secs * 1_000_000_000
}

/// What [`MintPolicy::default`] says.
pub open spec fn default_policy() -> PolicyView {
    PolicyView {
        refresh_skew: seconds(60),
        negative_base: seconds(60),
        negative_cap: seconds(3600),
        default_lifetime: seconds(600),
    }
}

impl Default for MintPolicy {
    fn default() -> (r: MintPolicy)
        ensures
            r@ == default_policy(),
    {
        MintPolicy {
            refresh_skew: Duration::from_secs(60),
            negative_base: Duration::from_secs(60),
            negative_cap: Duration::from_secs(3600),
            default_lifetime: Duration::from_secs(600),
        }
    }
}

/// Why no token was returned.
#[derive(Debug)]
pub enum MintError {
    /// The issuer rejected the credentials (HTTP 4xx other than 429).
    /// **Permanent**: callers must surface this and must not retry in a tight
    /// loop; calls inside the recorded backoff return [`MintError::Suppressed`].
    Rejected(String),
    /// A recent permanent rejection is still within its backoff window; no
    /// request was sent.
    Suppressed {
        /// Remaining time until the next attempt is allowed.
        retry_after: Duration,
    },
    /// Transient failure (HTTP 5xx/429, network, timeout, or an unreadable
    /// success body). Not cached; the next call retries.
    Transient(String),
}

/// What a [`MintError`] says.
pub enum MintErrorView {
    Rejected(Seq<char>),
    Suppressed { retry_after: nat },
    Transient(Seq<char>),
}

impl View for MintError {
    type V = MintErrorView;

    open spec fn view(&self) -> MintErrorView {
        match self {
            MintError::Rejected(message) => MintErrorView::Rejected(message@),
            MintError::Suppressed { retry_after } => MintErrorView::Suppressed {
                retry_after: retry_after@,
            },
            MintError::Transient(message) => MintErrorView::Transient(message@),
        }
    }
}

/// What a call that asks for a token returns.
pub type MintResult = Result<String, MintError>;

/// What a [`MintResult`] says.
pub open spec fn result_view(r: MintResult) -> Result<Seq<char>, MintErrorView> {
    match r {
        Ok(token) => Ok(token@),
        Err(error) => Err(error@),
    }
}

/// What the cache holds.
#[derive(Debug)]
pub enum State {
    Empty,
    /// A live token good until `expires_at` (already adjusted for `refresh_skew`).
    Valid { token: String, expires_at: Instant, fingerprint: u64 },
    /// The credential identified by `fingerprint` was rejected; suppress further
    /// attempts with those credentials until `until`.
    Rejected { fingerprint: u64, until: Instant, consecutive: u32 },
}

/// What a [`State`] says.
pub enum StateView {
    Empty,
    Valid { token: Seq<char>, expires_at: nat, fingerprint: u64 },
    Rejected { fingerprint: u64, until: nat, consecutive: u32 },
}

impl View for State {
    type V = StateView;

    open spec fn view(&self) -> StateView {
        match self {
            State::Empty => StateView::Empty,
            State::Valid { token, expires_at, fingerprint } => StateView::Valid {
                token: token@,
                expires_at: expires_at@,
                fingerprint: *fingerprint,
            },
            State::Rejected { fingerprint, until, consecutive } => StateView::Rejected {
                fingerprint: *fingerprint,
                until: until@,
                consecutive: *consecutive,
            },
        }
    }
}

/// What the cache says to do before any network call.
#[derive(Debug, PartialEq)]
pub enum CacheDecision {
    Serve(String),
    Suppress(Duration),
    Mint,
}

/// What a [`CacheDecision`] says.
pub enum DecisionView {
    Serve(Seq<char>),
    Suppress(nat),
    Mint,
}

impl View for CacheDecision {
    type V = DecisionView;

    open spec fn view(&self) -> DecisionView {
        match self {
            CacheDecision::Serve(token) => DecisionView::Serve(token@),
            CacheDecision::Suppress(wait) => DecisionView::Suppress(wait@),
            CacheDecision::Mint => DecisionView::Mint,
        }
    }
}

/// Serve a cached token of the same credential that is still fresh, suppress
/// inside the backoff of a rejection of the same credential, and mint otherwise.
pub open spec fn decision(state: StateView, fingerprint: u64, now: nat) -> DecisionView {
    match state {
        StateView::Valid { token, expires_at, fingerprint: held } if held == fingerprint && now
            < expires_at => DecisionView::Serve(token),
        StateView::Rejected { fingerprint: held, until, consecutive: _ } if held == fingerprint
            && now < until => DecisionView::Suppress((until - now) as nat),
        _ => DecisionView::Mint,
    }
}

/// Decides, from what the cache holds, whether to serve a cached token, suppress
/// (still inside a rejection backoff for the same credential), or mint. A
/// rejection of a different fingerprint never suppresses.
pub fn decide(state: &State, fingerprint: u64, now: Instant) -> (r: CacheDecision)
    ensures
        r@ == decision(state@, fingerprint, now@),
{
    match state {
        State::Valid { token, expires_at, fingerprint: held } => {
            if *held == fingerprint && now.is_before(*expires_at) {
                CacheDecision::Serve(token.clone())
            } else {
                CacheDecision::Mint
            }
        },
        State::Rejected { fingerprint: held, until, consecutive: _ } => {
            if *held == fingerprint && now.is_before(*until) {
                CacheDecision::Suppress(until.duration_since(now))
            } else {
                CacheDecision::Mint
            }
        },
        State::Empty => CacheDecision::Mint,
    }
}

/// The backoff after the given number of consecutive rejections:
/// `negative_base * 2^(consecutive - 1)`, capped at `negative_cap`.
pub open spec fn backoff(consecutive: nat, policy: PolicyView) -> nat {
    let doublings = if consecutive > 0 {
        (consecutive - 1) as nat
    } else {
        0
    };
    let uncapped = policy.negative_base * vstd::arithmetic::power2::pow2(doublings);
    capped(uncapped, policy.negative_cap)
}

/// `n`, but no more than `cap`.
pub open spec fn capped(n: nat, cap: nat) -> nat {
    if n <= cap {
        n
    } else {
        cap
    }
}

/// The wait after the given number of consecutive permanent rejections.
pub fn backoff_for(consecutive: u32, policy: &MintPolicy) -> (r: Duration)
    ensures
        r@ == backoff(consecutive as nat, policy@),
{
    let mut wait = policy.negative_base;
    let mut left: u32 = if consecutive > 0 {
        consecutive - 1
    } else {
        0
    };
    while left > 0 && !wait.is_zero() && wait.is_shorter_than(policy.negative_cap)
        invariant
            backoff(consecutive as nat, policy@) == capped(
                wait@ * vstd::arithmetic::power2::pow2(left as nat),
                policy.negative_cap@,
            ),
        decreases left,
    {
        proof {
            lemma_double(wait@, left as nat);
        }
        match wait.checked_mul(2) {
            Some(doubled) => {
                wait = doubled;
            },
            None => {
                proof {
                    lemma_at_least(wait@ * 2, (left - 1) as nat);
                }
                return policy.negative_cap;
            },
        }
        left = left - 1;
    }
    proof {
        lemma_at_least(wait@, left as nat);
    }
    wait.min(policy.negative_cap)
}

pub(crate) proof fn lemma_double(n: nat, k: nat)
    requires
        k > 0,
    ensures
        n * vstd::arithmetic::power2::pow2(k) == (n * 2) * vstd::arithmetic::power2::pow2(
            (k - 1) as nat,
        ),
{
    vstd::arithmetic::power2::lemma_pow2_unfold(k);
    let half = vstd::arithmetic::power2::pow2((k - 1) as nat);
    assert(n * (2 * half) == (n * 2) * half) by (nonlinear_arith);
}

pub(crate) proof fn lemma_at_least(n: nat, k: nat)
    ensures
        n * vstd::arithmetic::power2::pow2(k) >= n,
        n == 0 ==> n * vstd::arithmetic::power2::pow2(k) == 0,
        k == 0 ==> n * vstd::arithmetic::power2::pow2(k) == n,
{
    vstd::arithmetic::power2::lemma2_to64();
    vstd::arithmetic::power2::lemma_pow2_pos(k);
    let p = vstd::arithmetic::power2::pow2(k);
    assert(n * p >= n) by (nonlinear_arith)
        requires
            p >= 1,
    ;
    assert(n == 0 ==> n * p == 0) by (nonlinear_arith);
    assert(p == 1 ==> n * p == n) by (nonlinear_arith);
}

/// The token response of a successful mint.
#[derive(Clone, Debug)]
pub struct TokenResponse {
    pub id_token: String,
    pub expires_in: Option<u64>,
}

/// Outcome of an attempted mint, classified from the HTTP response.
#[derive(Debug)]
pub enum Outcome {
    Success { id_token: String, expires_in: Option<u64> },
    Permanent(String),
    Transient(String),
}

/// What an [`Outcome`] says.
pub enum OutcomeView {
    Success { id_token: Seq<char>, expires_in: Option<u64> },
    Permanent(Seq<char>),
    Transient(Seq<char>),
}

impl View for Outcome {
    type V = OutcomeView;

    open spec fn view(&self) -> OutcomeView {
        match self {
            Outcome::Success { id_token, expires_in } => OutcomeView::Success {
                id_token: id_token@,
                expires_in: *expires_in,
            },
            Outcome::Permanent(message) => OutcomeView::Permanent(message@),
            Outcome::Transient(message) => OutcomeView::Transient(message@),
        }
    }
}

/// How long a minted token is served from the cache: its stated lifetime, or the
/// default one, less the refresh skew.
pub open spec fn fresh_for(expires_in: Option<u64>, policy: PolicyView) -> nat {
    let lifetime = match expires_in {
        Some(secs) => seconds(secs as nat),
        None => policy.default_lifetime,
    };
    if lifetime >= policy.refresh_skew {
        (lifetime - policy.refresh_skew) as nat
    } else {
        0
    }
}

/// The number of consecutive rejections of a credential, one more of which has
/// just come in. A different credential starts the count again.
pub open spec fn rejections(prev: StateView, fingerprint: u64) -> u32 {
    match prev {
        StateView::Rejected { fingerprint: held, until: _, consecutive } if held
            == fingerprint => if consecutive < u32::MAX {
            (consecutive + 1) as u32
        } else {
            u32::MAX
        },
        _ => 1,
    }
}

/// What the cache holds after an outcome, or `None` when it is left as it is.
pub open spec fn next_state(
    prev: StateView,
    fingerprint: u64,
    now: nat,
    outcome: OutcomeView,
    policy: PolicyView,
) -> Option<StateView> {
    match outcome {
        OutcomeView::Success { id_token, expires_in } => Some(
            StateView::Valid {
                token: id_token,
                expires_at: now + fresh_for(expires_in, policy),
                fingerprint,
            },
        ),
        OutcomeView::Permanent(_) => Some(
            StateView::Rejected {
                fingerprint,
                until: now + backoff(rejections(prev, fingerprint) as nat, policy),
                consecutive: rejections(prev, fingerprint),
            },
        ),
        OutcomeView::Transient(_) => None,
    }
}

/// What a mint with this outcome returns to the caller.
pub open spec fn outcome_result(outcome: OutcomeView) -> Result<Seq<char>, MintErrorView> {
    match outcome {
        OutcomeView::Success { id_token, expires_in: _ } => Ok(id_token),
        OutcomeView::Permanent(message) => Err(MintErrorView::Rejected(message)),
        OutcomeView::Transient(message) => Err(MintErrorView::Transient(message)),
    }
}

/// Whether the deadline that a cache state holds is a point in time that an
/// [`Instant`] reaches.
pub open spec fn deadline_fits(state: Option<StateView>) -> bool {
    match state {
        Some(StateView::Valid { token: _, expires_at, fingerprint: _ }) => expires_at
            <= crate::clock::MAX_INSTANT_NANOS,
        Some(StateView::Rejected { fingerprint: _, until, consecutive: _ }) => until
            <= crate::clock::MAX_INSTANT_NANOS,
        _ => true,
    }
}

/// What the view of an optional state is.
pub open spec fn state_view(state: Option<State>) -> Option<StateView> {
    match state {
        Some(s) => Some(s@),
        None => None,
    }
}

fn lifetime_left(expires_in: Option<u64>, policy: &MintPolicy) -> (r: Duration)
    ensures
        r@ == fresh_for(expires_in, policy@),
{
    let lifetime = match expires_in {
        Some(secs) => Duration::from_secs(secs),
        None => policy.default_lifetime,
    };
    lifetime.saturating_sub(policy.refresh_skew)
}

fn count_rejection(prev: &State, fingerprint: u64) -> (r: u32)
    ensures
        r == rejections(prev@, fingerprint),
{
    match prev {
        State::Rejected { fingerprint: held, until: _, consecutive } => {
            if *held != fingerprint {
                1
            } else if *consecutive < u32::MAX {
                *consecutive + 1
            } else {
                u32::MAX
            }
        },
        _ => 1,
    }
}

/// Whether the deadline that [`apply`] would record is one that an [`Instant`]
/// reaches.
pub fn can_apply(
    prev: &State,
    fingerprint: u64,
    now: Instant,
    outcome: &Outcome,
    policy: &MintPolicy,
) -> (r: bool)
    ensures
        r == deadline_fits(next_state(prev@, fingerprint, now@, outcome@, policy@)),
{
    match outcome {
        Outcome::Success { id_token: _, expires_in } => {
            now.checked_add(lifetime_left(*expires_in, policy)).is_some()
        },
        Outcome::Permanent(_) => {
            now.checked_add(backoff_for(count_rejection(prev, fingerprint), policy)).is_some()
        },
        Outcome::Transient(_) => true,
    }
}

/// Folds a mint outcome into the next state and the result to return. The state
/// is `None` when it must be left untouched: transient failures must not drop a
/// still-valid token or create a negative entry.
pub fn apply(
    prev: &State,
    fingerprint: u64,
    now: Instant,
    outcome: Outcome,
    policy: &MintPolicy,
) -> (r: (Option<State>, MintResult))
    requires
        deadline_fits(next_state(prev@, fingerprint, now@, outcome@, policy@)),
    ensures
        state_view(r.0) == next_state(prev@, fingerprint, now@, outcome@, policy@),
        result_view(r.1) == outcome_result(outcome@),
{
    match outcome {
        Outcome::Success { id_token, expires_in } => {
            let expires_at = now + lifetime_left(expires_in, policy);
            (Some(State::Valid { token: id_token.clone(), expires_at, fingerprint }), Ok(id_token))
        },
        Outcome::Permanent(message) => {
            let consecutive: u32 = count_rejection(prev, fingerprint);
            let until = now + backoff_for(consecutive, policy);
            (
                Some(State::Rejected { fingerprint, until, consecutive }),
                Err(MintError::Rejected(message)),
            )
        },
        Outcome::Transient(message) => (None, Err(MintError::Transient(message))),
    }
}

/// What is fed to the hasher for a credential pair: each half followed by a byte
/// that no UTF-8 text holds, and one more such byte between the halves.
pub open spec fn credential_writes(client_id: Seq<char>, client_secret: Seq<char>) -> Seq<
    Seq<u8>,
> {
    seq![
        vstd::utf8::encode_utf8(client_id),
        seq![0xffu8],
        seq![0xffu8],
        vstd::utf8::encode_utf8(client_secret),
        seq![0xffu8],
    ]
}

/// In-memory fingerprint of a credential pair. Not cryptographic: only used to
/// detect that the credential changed, so the negative cache can be bypassed.
pub fn fingerprint(client_id: &str, client_secret: &str) -> (r: u64)
    ensures
        r == DefaultHasher::spec_finish(credential_writes(client_id@, client_secret@)),
{
    let end_of_text: [u8; 1] = [0xff];
    let mut hasher = DefaultHasher::new();
    hasher.write(client_id.as_bytes());
    hasher.write(end_of_text.as_slice());
    // Domain separator between the two halves.
    hasher.write(end_of_text.as_slice());
    hasher.write(client_secret.as_bytes());
    hasher.write(end_of_text.as_slice());
    assert(end_of_text@ =~= seq![0xffu8]);
    assert(hasher@ =~= credential_writes(client_id@, client_secret@));
    hasher.finish()
}

/// The longest error body, in bytes, that a message quotes in full.
pub const QUOTED_BYTES: usize = 200;

/// Whether a text is short enough to be quoted in full.
pub open spec fn fits_quotation(s: Seq<char>) -> bool {
    vstd::utf8::encode_utf8(s).len() <= QUOTED_BYTES
}

/// The longest beginning of a text that is short enough to be quoted.
pub open spec fn quotation(s: Seq<char>) -> Seq<char>
    decreases s.len(),
{
    if s.len() == 0 || fits_quotation(s) {
        s
    } else {
        quotation(s.drop_last())
    }
}

/// A text, or as much of its beginning as fits and an ellipsis when it is too long.
pub open spec fn quoted(s: Seq<char>) -> Seq<char> {
    if fits_quotation(s) {
        s
    } else {
        quotation(s) + "…"@
    }
}

/// Cuts a text that is longer than [`QUOTED_BYTES`] there, or before the character
/// that lies across that place, and marks the cut with an ellipsis.
pub fn truncate(s: &str) -> (r: String)
    ensures
        r@ == quoted(s@),
{
    if s.as_bytes().len() <= QUOTED_BYTES {
        return s.to_owned();
    }
    let ghost bytes = vstd::utf8::encode_utf8(s@);
    proof {
        vstd::utf8::encode_utf8_valid_utf8(s@);
    }
    let mut end: usize = QUOTED_BYTES;
    while !s.is_char_boundary(end)
        invariant
            end <= QUOTED_BYTES,
            bytes == vstd::utf8::encode_utf8(s@),
            vstd::utf8::valid_utf8(bytes),
            forall|j: int|
                end < j <= QUOTED_BYTES ==> !#[trigger] vstd::utf8::is_char_boundary(bytes, j),
        decreases end,
    {
        end -= 1;
    }
    let (head, _) = s.split_at(end);
    proof {
        lemma_quotation_at(s@, head@, end as int);
    }
    text::concat(head, "…")
}

/// Joined texts are encoded one after the other, and where the second begins there
/// is a character boundary.
pub(crate) proof fn lemma_encode_joined(a: Seq<char>, b: Seq<char>)
    ensures
        vstd::utf8::encode_utf8(a + b) == vstd::utf8::encode_utf8(a) + vstd::utf8::encode_utf8(b),
        vstd::utf8::is_char_boundary(
            vstd::utf8::encode_utf8(a + b),
            vstd::utf8::encode_utf8(a).len() as int,
        ),
    decreases a.len(),
{
    let joined = a + b;
    let bytes = vstd::utf8::encode_utf8(joined);
    vstd::utf8::encode_utf8_valid_utf8(joined);
    if a.len() == 0 {
        assert(joined =~= b);
        assert(vstd::utf8::encode_utf8(a) + vstd::utf8::encode_utf8(b) =~= bytes);
    } else {
        let rest = a.drop_first();
        assert(joined.drop_first() =~= rest + b);
        lemma_encode_joined(rest, b);
        assert(vstd::utf8::encode_utf8(a) + vstd::utf8::encode_utf8(b) =~= bytes);
        vstd::utf8::encode_utf8_first_scalar(joined);
        assert(vstd::utf8::pop_first_scalar(bytes) =~= vstd::utf8::encode_utf8(rest + b));
    }
}

/// What fits still fits when less of it is taken.
pub(crate) proof fn lemma_beginning_is_shorter(s: Seq<char>, k: int)
    requires
        0 <= k <= s.len(),
    ensures
        vstd::utf8::encode_utf8(s.take(k)).len() <= vstd::utf8::encode_utf8(s).len(),
{
    assert(s.take(k) + s.skip(k) =~= s);
    lemma_encode_joined(s.take(k), s.skip(k));
}

/// A beginning that fits, and to which no further character can be added, is the
/// quotation.
pub(crate) proof fn lemma_quotation_is(s: Seq<char>, k: int)
    requires
        0 <= k <= s.len(),
        fits_quotation(s.take(k)),
        k < s.len() ==> !fits_quotation(s.take(k + 1)),
    ensures
        quotation(s) == s.take(k),
    decreases s.len(),
{
    if k == s.len() {
        assert(s.take(k) =~= s);
    } else {
        lemma_beginning_is_shorter(s, k + 1);
        let shorter = s.drop_last();
        assert(shorter.take(k) =~= s.take(k));
        if k < shorter.len() {
            assert(shorter.take(k + 1) =~= s.take(k + 1));
        }
        lemma_quotation_is(shorter, k);
    }
}

/// The text before the last character boundary that is not past the longest
/// quotation is the quotation.
pub(crate) proof fn lemma_quotation_at(s: Seq<char>, head: Seq<char>, end: int)
    requires
        !fits_quotation(s),
        0 <= end <= QUOTED_BYTES,
        vstd::utf8::is_char_boundary(vstd::utf8::encode_utf8(s), end),
        forall|j: int|
            end < j <= QUOTED_BYTES ==> !#[trigger] vstd::utf8::is_char_boundary(
                vstd::utf8::encode_utf8(s),
                j,
            ),
        vstd::utf8::encode_utf8(head) == vstd::utf8::encode_utf8(s).subrange(0, end),
    ensures
        quotation(s) == head,
{
    let bytes = vstd::utf8::encode_utf8(s);
    let k = head.len() as int;
    vstd::utf8::encode_utf8_valid_utf8(s);
    vstd::utf8::encode_utf8_decode_utf8(s);
    vstd::utf8::encode_utf8_decode_utf8(head);
    vstd::utf8::decode_utf8_split(bytes, end);
    assert(s.take(k) =~= head);
    if k < s.len() {
        let more = s.take(k + 1);
        assert(more =~= head + seq![s[k]]);
        lemma_encode_joined(head, seq![s[k]]);
        vstd::utf8::encode_utf8_first_scalar(seq![s[k]]);
        assert(vstd::utf8::encode_utf8(seq![s[k]]).len() > 0);
        assert(more + s.skip(k + 1) =~= s);
        lemma_encode_joined(more, s.skip(k + 1));
    } else {
        assert(s =~= head);
    }
    lemma_quotation_is(s, k);
}

/// Identifies and authenticates the confidential client to mint tokens for.
#[derive(Clone)]
pub struct MintConfig {
    /// Issuer base URL, e.g. `https://signin.chirpauth.com` (trailing slash ok).
    pub issuer: String,
    /// The confidential client's id.
    pub client_id: String,
    /// The confidential client's secret.
    pub client_secret: String,
    /// Cache/backoff tuning.
    pub policy: MintPolicy,
}

/// What a [`MintConfig`] says.
pub struct MintConfigView {
    pub issuer: Seq<char>,
    pub client_id: Seq<char>,
    pub client_secret: Seq<char>,
    pub policy: PolicyView,
}

impl View for MintConfig {
    type V = MintConfigView;

    open spec fn view(&self) -> MintConfigView {
        MintConfigView {
            issuer: self.issuer@,
            client_id: self.client_id@,
            client_secret: self.client_secret@,
            policy: self.policy@,
        }
    }
}

impl MintConfig {
    /// Build a config with the default [`MintPolicy`].
    pub fn new(issuer: &str, client_id: &str, client_secret: &str) -> (r: MintConfig)
        ensures
            r@ == (MintConfigView {
                issuer: issuer@,
                client_id: client_id@,
                client_secret: client_secret@,
                policy: default_policy(),
            }),
    {
        MintConfig {
            issuer: issuer.to_owned(),
            client_id: client_id.to_owned(),
            client_secret: client_secret.to_owned(),
            policy: MintPolicy::default(),
        }
    }
}

/// A token request: a `POST` of `body` to `url`, with HTTP basic authentication.
#[derive(Debug)]
pub struct TokenRequest {
    pub url: String,
    pub username: String,
    pub password: String,
    pub content_type: String,
    pub body: String,
}

/// What a [`TokenRequest`] says.
pub struct TokenRequestView {
    pub url: Seq<char>,
    pub username: Seq<char>,
    pub password: Seq<char>,
    pub content_type: Seq<char>,
    pub body: Seq<char>,
}

impl View for TokenRequest {
    type V = TokenRequestView;

    open spec fn view(&self) -> TokenRequestView {
        TokenRequestView {
            url: self.url@,
            username: self.username@,
            password: self.password@,
            content_type: self.content_type@,
            body: self.body@,
        }
    }
}

/// The request that mints a token for a client.
pub open spec fn request_for(config: MintConfigView) -> TokenRequestView {
    TokenRequestView {
        url: text::strip_trailing(config.issuer, '/') + "/token"@,
        username: config.client_id,
        password: config.client_secret,
        content_type: "application/x-www-form-urlencoded"@,
        body: "grant_type=client_credentials"@,
    }
}

/// The request that mints a token for a client.
pub fn token_request(config: &MintConfig) -> (r: TokenRequest)
    ensures
        r@ == request_for(config@),
{
    TokenRequest {
        url: text::concat(text::strip_trailing_char(config.issuer.as_str(), '/'), "/token"),
        username: config.client_id.clone(),
        password: config.client_secret.clone(),
        content_type: "application/x-www-form-urlencoded".to_owned(),
        body: "grant_type=client_credentials".to_owned(),
    }
}

/// The outcome when no response came back.
pub fn send_failed(error: &str) -> (r: Outcome)
    ensures
        r@ == OutcomeView::Transient("request error: "@ + error@),
{
    Outcome::Transient(text::concat("request error: ", error))
}

/// What to read from a response, given its status.
#[derive(Debug)]
pub enum ReplyPlan {
    /// Read the body as a [`TokenResponse`] and pass it to [`token_read`].
    ReadToken,
    /// Read the body as text and pass it to [`rejection_read`].
    ReadRejection,
    /// The body does not matter.
    Settled(Outcome),
}

/// What a [`ReplyPlan`] says.
pub enum ReplyPlanView {
    ReadToken,
    ReadRejection,
    Settled(OutcomeView),
}

impl View for ReplyPlan {
    type V = ReplyPlanView;

    open spec fn view(&self) -> ReplyPlanView {
        match self {
            ReplyPlan::ReadToken => ReplyPlanView::ReadToken,
            ReplyPlan::ReadRejection => ReplyPlanView::ReadRejection,
            ReplyPlan::Settled(outcome) => ReplyPlanView::Settled(outcome@),
        }
    }
}

/// A success holds a token. Rate limiting is transient, any other client error is
/// a rejection of the credential, and everything else is transient.
pub open spec fn reply_plan(status: u16) -> ReplyPlanView {
    if 200 <= status < 300 {
        ReplyPlanView::ReadToken
    } else if status == 429 {
        ReplyPlanView::Settled(OutcomeView::Transient("HTTP 429 (rate limited)"@))
    } else if 400 <= status < 500 {
        ReplyPlanView::ReadRejection
    } else {
        ReplyPlanView::Settled(
            OutcomeView::Transient("HTTP "@ + crate::outside::status_text(status)),
        )
    }
}

/// The outcome of a response that is neither a success nor a client error, given
/// its status code and reason phrase.
pub fn unexpected_status(status_text: &str) -> (r: Outcome)
    ensures
        r@ == OutcomeView::Transient("HTTP "@ + status_text@),
{
    Outcome::Transient(text::concat("HTTP ", status_text))
}

/// Classifies a response by its status code.
pub fn plan_reply(status: u16) -> (r: ReplyPlan)
    requires
        100 <= status <= 999,
    ensures
        r@ == reply_plan(status),
{
    if 200 <= status && status < 300 {
        ReplyPlan::ReadToken
    } else if status == 429 {
        ReplyPlan::Settled(Outcome::Transient("HTTP 429 (rate limited)".to_owned()))
    } else if 400 <= status && status < 500 {
        ReplyPlan::ReadRejection
    } else {
        ReplyPlan::Settled(unexpected_status(crate::outside::status_to_string(status).as_str()))
    }
}

/// The outcome of a success, given its body or why it could not be read.
pub open spec fn token_outcome(body: Result<TokenResponse, String>) -> OutcomeView {
    match body {
        Ok(response) => OutcomeView::Success {
            id_token: response.id_token@,
            expires_in: response.expires_in,
        },
        Err(error) => OutcomeView::Transient("unreadable token response: "@ + error@),
    }
}

/// The outcome of a success, given its body or why it could not be read. An
/// unreadable body is no credential problem, so it is transient.
pub fn token_read(body: Result<TokenResponse, String>) -> (r: Outcome)
    ensures
        r@ == token_outcome(body),
{
    match body {
        Ok(response) => Outcome::Success {
            id_token: response.id_token,
            expires_in: response.expires_in,
        },
        Err(error) => Outcome::Transient(
            text::concat("unreadable token response: ", error.as_str()),
        ),
    }
}

/// The outcome of a rejection, given its status code and reason phrase and its
/// body, whatever it holds.
pub open spec fn rejection_outcome(status_text: Seq<char>, body: Seq<char>) -> OutcomeView {
    OutcomeView::Permanent("HTTP "@ + status_text + ": "@ + quoted(body))
}

/// The outcome of a rejection, given its status code and reason phrase and its
/// body, which is cut to a bounded length.
pub fn rejected(status_text: &str, body: &str) -> (r: Outcome)
    ensures
        r@ == rejection_outcome(status_text@, body@),
{
    let head = text::concat("HTTP ", status_text);
    let prefix = text::concat(head.as_str(), ": ");
    Outcome::Permanent(text::concat(prefix.as_str(), truncate(body).as_str()))
}

/// The outcome of a rejection, given its status code and its body.
pub fn rejection_read(status: u16, body: &str) -> (r: Outcome)
    requires
        100 <= status <= 999,
    ensures
        r@ == rejection_outcome(crate::outside::status_text(status), body@),
{
    rejected(crate::outside::status_to_string(status).as_str(), body)
}

/// The outcome of a response: of a success by the token in its body, of a rejection
/// by the text of its body, and else by the status alone.
pub open spec fn reply_outcome(
    status: u16,
    token: Result<TokenResponse, String>,
    body: Seq<char>,
) -> OutcomeView {
    match reply_plan(status) {
        ReplyPlanView::ReadToken => token_outcome(token),
        ReplyPlanView::ReadRejection => rejection_outcome(
            crate::outside::status_text(status),
            body,
        ),
        ReplyPlanView::Settled(outcome) => outcome,
    }
}

/// The caches of one confidential client. Hold one per client for the process
/// lifetime, and ask it before and after each request.
pub struct MintCache {
    config: MintConfig,
    state: State,
}

/// What a [`MintCache`] holds.
pub struct MintCacheView {
    pub config: MintConfigView,
    pub state: StateView,
}

impl View for MintCache {
    type V = MintCacheView;

    closed spec fn view(&self) -> MintCacheView {
        MintCacheView { config: self.config@, state: self.state@ }
    }
}

impl MintCacheView {
    /// The fingerprint of the client's credential.
    pub open spec fn fingerprint(self) -> u64 {
        DefaultHasher::spec_finish(
            credential_writes(self.config.client_id, self.config.client_secret),
        )
    }

    /// What to do at `now` for a caller that wants a token.
    pub open spec fn step(self, now: nat) -> MintStepView {
        match decision(self.state, self.fingerprint(), now) {
            DecisionView::Serve(token) => MintStepView::Done(Ok(token)),
            DecisionView::Suppress(retry_after) => MintStepView::Done(
                Err(MintErrorView::Suppressed { retry_after }),
            ),
            DecisionView::Mint => MintStepView::Request(request_for(self.config)),
        }
    }

    /// What `next_state` says for this cache.
    pub open spec fn pending(self, now: nat, outcome: OutcomeView) -> Option<StateView> {
        next_state(self.state, self.fingerprint(), now, outcome, self.config.policy)
    }

    /// The cache after a request with this outcome.
    pub open spec fn settled(self, now: nat, outcome: OutcomeView) -> MintCacheView {
        match self.pending(now, outcome) {
            Some(state) => MintCacheView { state, ..self },
            None => self,
        }
    }
}

/// What to do for a caller that wants a token.
#[derive(Debug)]
pub enum MintStep {
    /// Return this; no request is due.
    Done(MintResult),
    /// Send this request, and pass its outcome to [`MintCache::settle`].
    Request(TokenRequest),
}

/// What a [`MintStep`] says.
pub enum MintStepView {
    Done(Result<Seq<char>, MintErrorView>),
    Request(TokenRequestView),
}

impl View for MintStep {
    type V = MintStepView;

    open spec fn view(&self) -> MintStepView {
        match self {
            MintStep::Done(result) => MintStepView::Done(result_view(*result)),
            MintStep::Request(request) => MintStepView::Request(request@),
        }
    }
}

impl MintCache {
    /// Empty caches for a client.
    pub fn new(config: MintConfig) -> (r: MintCache)
        ensures
            r@ == (MintCacheView { config: config@, state: StateView::Empty }),
    {
        MintCache { config, state: State::Empty }
    }

    /// Serves a cached token when fresh; fails fast with
    /// [`MintError::Suppressed`] when inside a post-rejection backoff; otherwise
    /// asks for a request.
    pub fn step(&self, now: Instant) -> (r: MintStep)
        ensures
            r@ == self@.step(now@),
    {
        let fp: u64 = fingerprint(self.config.client_id.as_str(), self.config.client_secret.as_str());
        match decide(&self.state, fp, now) {
            CacheDecision::Serve(token) => MintStep::Done(Ok(token)),
            CacheDecision::Suppress(retry_after) => MintStep::Done(
                Err(MintError::Suppressed { retry_after }),
            ),
            CacheDecision::Mint => MintStep::Request(token_request(&self.config)),
        }
    }

    /// Whether the deadline that [`MintCache::settle`] would record is one that an
    /// [`Instant`] reaches.
    pub fn can_settle(&self, now: Instant, outcome: &Outcome) -> (r: bool)
        ensures
            r == deadline_fits(self@.pending(now@, outcome@)),
    {
        let fp: u64 = fingerprint(self.config.client_id.as_str(), self.config.client_secret.as_str());
        can_apply(&self.state, fp, now, outcome, &self.config.policy)
    }

    /// Folds the outcome of a request into the caches, and says what to return.
    pub fn settle(&mut self, now: Instant, outcome: Outcome) -> (r: MintResult)
        requires
            deadline_fits(old(self)@.pending(now@, outcome@)),
        ensures
            final(self)@ == old(self)@.settled(now@, outcome@),
            result_view(r) == outcome_result(outcome@),
    {
        let fp: u64 = fingerprint(self.config.client_id.as_str(), self.config.client_secret.as_str());
        let (next, result) = apply(&self.state, fp, now, outcome, &self.config.policy);
        if let Some(state) = next {
            self.state = state;
        }
        result
    }
}

} // verus!

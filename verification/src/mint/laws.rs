//! What holds of the token caches as a whole.

pub mod cache;
pub mod exchange;
pub mod views;

use crate::mint;
use crate::mint::{
    DecisionView, MintCacheView, MintConfigView, MintErrorView, MintStepView, OutcomeView,
    PolicyView, StateView, TokenResponse,
};
use vstd::prelude::*;

verus! {

/// A cache entry, good or bad, binds only the credential that it was made with:
/// with any other credential a mint is tried at once.
pub proof fn law_changed_credential_mints_at_once(state: StateView, fingerprint: u64, now: nat)
    requires
        match state {
            StateView::Empty => true,
            StateView::Valid { token: _, expires_at: _, fingerprint: held } => held != fingerprint,
            StateView::Rejected { fingerprint: held, until: _, consecutive: _ } => held
                != fingerprint,
        },
    ensures
        mint::decision(state, fingerprint, now) == DecisionView::Mint,
{
}

/// A minted token is served without a request until `refresh_skew` before its
/// stated expiry, and from then on a new one is requested. No token is served at
/// or past its stated expiry.
pub proof fn law_minted_token_is_served_until_skew(
    cache: MintCacheView,
    minted: nat,
    id_token: Seq<char>,
    expires_in: u64,
    now: nat,
)
    requires
        minted <= now,
    ensures
        ({
            let policy = cache.config.policy;
            let after = cache.settled(
                minted,
                OutcomeView::Success { id_token, expires_in: Some(expires_in) },
            );
            let expiry = minted + mint::seconds(expires_in as nat);
            &&& now + policy.refresh_skew < expiry ==> after.step(now) == MintStepView::Done(
                Ok(id_token),
            )
            &&& now + policy.refresh_skew >= expiry ==> after.step(now) == MintStepView::Request(
                mint::request_for(cache.config),
            )
            &&& now >= expiry ==> after.step(now) is Request
        }),
{
}

/// A token without a stated lifetime is held for the default one.
pub proof fn law_unstated_lifetime_is_the_default(
    cache: MintCacheView,
    minted: nat,
    id_token: Seq<char>,
    now: nat,
)
    requires
        minted <= now,
    ensures
        ({
            let policy = cache.config.policy;
            let after = cache.settled(minted, OutcomeView::Success { id_token, expires_in: None });
            after.step(now) == if now + policy.refresh_skew < minted + policy.default_lifetime {
                MintStepView::Done(Ok(id_token))
            } else {
                MintStepView::Request(mint::request_for(cache.config))
            }
        }),
{
}

/// After a permanent rejection no request is sent until the backoff has passed,
/// the caller is told how long that still is, and then the client tries again.
pub proof fn law_rejection_suppresses_for_the_backoff(
    cache: MintCacheView,
    rejected: nat,
    message: Seq<char>,
    now: nat,
)
    requires
        rejected <= now,
    ensures
        ({
            let after = cache.settled(rejected, OutcomeView::Permanent(message));
            let wait = mint::backoff(
                mint::rejections(cache.state, cache.fingerprint()) as nat,
                cache.config.policy,
            );
            after.step(now) == if now < rejected + wait {
                MintStepView::Done(
                    Err(
                        MintErrorView::Suppressed {
                            retry_after: (rejected + wait - now) as nat,
                        },
                    ),
                )
            } else {
                MintStepView::Request(mint::request_for(cache.config))
            }
        }),
{
}

/// No suppression outlasts `negative_cap`: that long after the last rejection the
/// client sends a request again, whatever came before.
pub proof fn law_suppression_is_bounded(
    cache: MintCacheView,
    rejected: nat,
    message: Seq<char>,
    now: nat,
)
    requires
        rejected <= now,
    ensures
        ({
            let after = cache.settled(rejected, OutcomeView::Permanent(message));
            &&& now >= rejected + cache.config.policy.negative_cap ==> after.step(now) is Request
            &&& after.step(now) matches MintStepView::Done(
                Err(MintErrorView::Suppressed { retry_after }),
            ) ==> retry_after <= cache.config.policy.negative_cap
        }),
{
    law_rejection_suppresses_for_the_backoff(cache, rejected, message, now);
}

/// The backoff is the base after the first rejection, doubles with each further
/// one, and never exceeds the cap.
pub proof fn law_backoff_doubles_up_to_the_cap(consecutive: nat, policy: PolicyView)
    requires
        consecutive >= 1,
    ensures
        mint::backoff(1, policy) == mint::capped(policy.negative_base, policy.negative_cap),
        mint::backoff(consecutive + 1, policy) == mint::capped(
            2 * mint::backoff(consecutive, policy),
            policy.negative_cap,
        ),
        mint::backoff(consecutive, policy) <= policy.negative_cap,
        mint::backoff(consecutive, policy) <= mint::backoff(consecutive + 1, policy),
{
    mint::lemma_at_least(policy.negative_base, 0);
    mint::lemma_double(policy.negative_base, consecutive);
    let half = vstd::arithmetic::power2::pow2((consecutive - 1) as nat);
    let base = policy.negative_base;
    assert((base * 2) * half == 2 * (base * half)) by (nonlinear_arith);
}

/// Each rejection in a row counts one more than the last, up to the largest
/// count, and one of another credential, or after a success, counts as the first.
pub proof fn law_rejections_are_counted(
    cache: MintCacheView,
    first: nat,
    second: nat,
    message: Seq<char>,
)
    ensures
        ({
            let count = mint::rejections(cache.state, cache.fingerprint());
            let once = cache.settled(first, OutcomeView::Permanent(message));
            let twice = once.settled(second, OutcomeView::Permanent(message));
            &&& once.state matches StateView::Rejected { fingerprint, until: _, consecutive }
                ==> fingerprint == cache.fingerprint() && consecutive == count
            &&& once.state is Rejected
            &&& twice.state is Rejected
            &&& twice.state matches StateView::Rejected { fingerprint: _, until: _, consecutive }
                ==> consecutive == if count < u32::MAX {
                count + 1
            } else {
                count as int
            }
        }),
        !(cache.state is Rejected) ==> mint::rejections(cache.state, cache.fingerprint()) == 1,
        cache.state matches StateView::Rejected { fingerprint, until: _, consecutive: _ }
            && fingerprint != cache.fingerprint() ==> mint::rejections(
            cache.state,
            cache.fingerprint(),
        ) == 1,
{
}

/// A client that has been rejected at each of the given times.
pub open spec fn rejected_at(cache: MintCacheView, times: Seq<nat>, message: Seq<char>) -> MintCacheView
    decreases times.len(),
{
    if times.len() == 0 {
        cache
    } else {
        rejected_at(cache, times.drop_last(), message).settled(
            times.last(),
            OutcomeView::Permanent(message),
        )
    }
}

/// Whether a client that was rejected at each of the times before index `i` sends a
/// request at that time.
pub open spec fn asks_at(
    cache: MintCacheView,
    times: Seq<nat>,
    i: int,
    message: Seq<char>,
) -> bool {
    rejected_at(cache, times.take(i), message).step(times[i]) is Request
}

/// Whether a client that is always rejected sends its requests at the given times.
pub open spec fn sends_at(cache: MintCacheView, times: Seq<nat>, message: Seq<char>) -> bool {
    forall|i: int| 0 <= i < times.len() ==> #[trigger] asks_at(cache, times, i, message)
}

/// `n`, as far as rejections are counted.
pub open spec fn counted(n: nat) -> nat {
    mint::capped(n, u32::MAX as nat)
}

/// Whether the request at index `i` waited for as long as the rejections before it
/// demand.
pub open spec fn has_waited(times: Seq<nat>, i: int, policy: PolicyView) -> bool {
    times[i] >= times[i - 1] + mint::backoff(counted(i as nat), policy)
}

/// A client that is always rejected sends its requests no faster than the backoff
/// schedule allows: after the first comes the base wait, which doubles up to the
/// cap. However long it goes on, the requests are spread out by at least the base
/// wait or the cap, whichever is shorter.
pub proof fn law_rejected_client_follows_the_schedule(
    config: MintConfigView,
    times: Seq<nat>,
    message: Seq<char>,
)
    requires
        sends_at(MintCacheView { config, state: StateView::Empty }, times, message),
    ensures
        forall|i: int| 0 < i < times.len() ==> #[trigger] has_waited(times, i, config.policy),
        times.len() > 0 ==> times.last() >= times[0] + (times.len() - 1) * mint::capped(
            config.policy.negative_base,
            config.policy.negative_cap,
        ),
    decreases times.len(),
{
    let cache = MintCacheView { config, state: StateView::Empty };
    let policy = config.policy;
    let gap = mint::capped(policy.negative_base, policy.negative_cap);
    let last = times.len() - 1;
    if last > 0 {
        let before = times.drop_last();
        lemma_sends_before(cache, times, message);
        law_rejected_client_follows_the_schedule(config, before, message);
        lemma_next_request(config, before, message, times[last]);
        assert((last - 1) * gap + gap == last * gap) by (nonlinear_arith);
        assert forall|i: int| 0 < i < times.len() implies #[trigger] has_waited(
            times,
            i,
            policy,
        ) by {
            if i < last {
                assert(has_waited(before, i, policy));
            }
        }
    } else if last == 0 {
        assert(0 * gap == 0) by (nonlinear_arith);
    }
}

proof fn lemma_sends_before(cache: MintCacheView, times: Seq<nat>, message: Seq<char>)
    requires
        times.len() > 0,
        sends_at(cache, times, message),
    ensures
        sends_at(cache, times.drop_last(), message),
        rejected_at(cache, times.drop_last(), message).step(times.last()) is Request,
{
    let before = times.drop_last();
    assert forall|i: int| 0 <= i < before.len() implies #[trigger] asks_at(
        cache,
        before,
        i,
        message,
    ) by {
        assert(asks_at(cache, times, i, message));
        assert(before.take(i) =~= times.take(i));
    }
    assert(asks_at(cache, times, times.len() - 1, message));
    assert(times.take(before.len() as int) =~= before);
}

proof fn lemma_next_request(
    config: MintConfigView,
    before: Seq<nat>,
    message: Seq<char>,
    now: nat,
)
    requires
        before.len() > 0,
        rejected_at(
            MintCacheView { config, state: StateView::Empty },
            before,
            message,
        ).step(now) is Request,
    ensures
        now >= before.last() + mint::backoff(counted(before.len()), config.policy),
        now >= before.last() + mint::capped(
            config.policy.negative_base,
            config.policy.negative_cap,
        ),
{
    lemma_rejected_state(config, before, message);
    mint::lemma_at_least(config.policy.negative_base, (counted(before.len()) - 1) as nat);
}

proof fn lemma_rejected_state(config: MintConfigView, times: Seq<nat>, message: Seq<char>)
    requires
        times.len() > 0,
    ensures
        ({
            let cache = MintCacheView { config, state: StateView::Empty };
            let n = counted(times.len());
            rejected_at(cache, times, message) == (MintCacheView {
                config,
                state: StateView::Rejected {
                    fingerprint: cache.fingerprint(),
                    until: times.last() + mint::backoff(n, config.policy),
                    consecutive: n as u32,
                },
            })
        }),
    decreases times.len(),
{
    let cache = MintCacheView { config, state: StateView::Empty };
    if times.len() > 1 {
        lemma_rejected_state(config, times.drop_last(), message);
    } else {
        assert(rejected_at(cache, times.drop_last(), message) == cache);
    }
}

/// A transient failure changes nothing in the cache: it neither drops a live
/// token nor creates a negative entry, and it is reported as what it is.
pub proof fn law_transient_failure_leaves_the_cache(
    cache: MintCacheView,
    now: nat,
    message: Seq<char>,
)
    ensures
        cache.settled(now, OutcomeView::Transient(message)) == cache,
        mint::outcome_result(OutcomeView::Transient(message)) == Err::<Seq<char>, _>(
            MintErrorView::Transient(message),
        ),
{
}

/// Every permanent rejection reaches the caller, however many came before it.
pub proof fn law_rejection_is_never_silenced(message: Seq<char>)
    ensures
        mint::outcome_result(OutcomeView::Permanent(message)) == Err::<Seq<char>, _>(
            MintErrorView::Rejected(message),
        ),
{
}

/// Every client error other than 429 is a permanent rejection, whatever its body
/// holds, and nothing else is. A success is one exactly when its body can be read,
/// and everything else is transient.
pub proof fn law_only_client_errors_reject(
    status: u16,
    token: Result<TokenResponse, String>,
    body: Seq<char>,
)
    ensures
        ({
            let outcome = mint::reply_outcome(status, token, body);
            &&& outcome is Permanent <==> 400 <= status < 500 && status != 429
            &&& outcome is Success <==> 200 <= status < 300 && token is Ok
            &&& outcome is Permanent ==> outcome == mint::rejection_outcome(
                crate::outside::status_text(status),
                body,
            )
        }),
{
}

/// A text of at most `QUOTED_BYTES` is quoted as it is. Of a longer one as many
/// characters are quoted as fit, and an ellipsis follows. Where a character begins
/// right after the first `QUOTED_BYTES`, those are quoted exactly.
pub proof fn law_quotation_is_as_long_as_fits(s: Seq<char>)
    ensures
        ({
            let bytes = vstd::utf8::encode_utf8(s);
            let head = mint::quotation(s);
            &&& bytes.len() <= mint::QUOTED_BYTES ==> mint::quoted(s) == s
            &&& bytes.len() > mint::QUOTED_BYTES ==> {
                &&& mint::quoted(s) == head + "…"@
                &&& head.len() < s.len()
                &&& head == s.take(head.len() as int)
                &&& vstd::utf8::encode_utf8(head).len() <= mint::QUOTED_BYTES
                &&& vstd::utf8::encode_utf8(s.take(head.len() + 1int)).len() > mint::QUOTED_BYTES
                &&& vstd::utf8::is_char_boundary(bytes, mint::QUOTED_BYTES as int)
                    ==> vstd::utf8::encode_utf8(head) == bytes.subrange(
                    0,
                    mint::QUOTED_BYTES as int,
                )
            }
        }),
{
    let bytes = vstd::utf8::encode_utf8(s);
    if bytes.len() > mint::QUOTED_BYTES {
        lemma_quotation_is_maximal(s);
        if vstd::utf8::is_char_boundary(bytes, mint::QUOTED_BYTES as int) {
            let cut = bytes.subrange(0, mint::QUOTED_BYTES as int);
            vstd::utf8::encode_utf8_valid_utf8(s);
            vstd::utf8::valid_utf8_split(bytes, mint::QUOTED_BYTES as int);
            vstd::utf8::decode_utf8_encode_utf8(cut);
            mint::lemma_quotation_at(s, vstd::utf8::decode_utf8(cut), mint::QUOTED_BYTES as int);
        }
    }
}

proof fn lemma_quotation_is_maximal(s: Seq<char>)
    requires
        !mint::fits_quotation(s),
    ensures
        ({
            let head = mint::quotation(s);
            &&& head.len() < s.len()
            &&& head == s.take(head.len() as int)
            &&& mint::fits_quotation(head)
            &&& !mint::fits_quotation(s.take(head.len() + 1int))
        }),
    decreases s.len(),
{
    let shorter = s.drop_last();
    if mint::fits_quotation(shorter) {
        assert(s.take(shorter.len() + 1int) =~= s);
    } else {
        lemma_quotation_is_maximal(shorter);
        let n = mint::quotation(shorter).len();
        assert(shorter.take(n as int) =~= s.take(n as int));
        assert(shorter.take(n + 1int) =~= s.take(n + 1int));
    }
}

/// A fresh cache asks for a request.
pub proof fn law_empty_cache_mints(config: MintConfigView, now: nat)
    ensures
        (MintCacheView { config, state: StateView::Empty }).step(now) == MintStepView::Request(
            mint::request_for(config),
        ),
{
}

/// The bytes that a credential pair feeds to the hasher, one after the other.
pub open spec fn hashed_bytes(client_id: Seq<char>, client_secret: Seq<char>) -> Seq<u8> {
    let writes = mint::credential_writes(client_id, client_secret);
    writes[0] + writes[1] + writes[2] + writes[3] + writes[4]
}

/// Two credential pairs feed the same bytes to the hasher only when they are the
/// same pair: the halves cannot run into each other.
pub proof fn law_credentials_are_hashed_apart(
    id: Seq<char>,
    secret: Seq<char>,
    other_id: Seq<char>,
    other_secret: Seq<char>,
)
    requires
        hashed_bytes(id, secret) == hashed_bytes(other_id, other_secret),
    ensures
        id == other_id,
        secret == other_secret,
{
    let a = vstd::utf8::encode_utf8(id);
    let b = vstd::utf8::encode_utf8(secret);
    let c = vstd::utf8::encode_utf8(other_id);
    let d = vstd::utf8::encode_utf8(other_secret);
    let left = hashed_bytes(id, secret);
    let right = hashed_bytes(other_id, other_secret);
    lemma_utf8_has_no_ff(id);
    lemma_utf8_has_no_ff(other_id);
    assert(left[a.len() as int] == 0xff);
    assert(right[c.len() as int] == 0xff);
    if a.len() < c.len() {
        assert(right[a.len() as int] == c[a.len() as int]);
    }
    if c.len() < a.len() {
        assert(left[c.len() as int] == a[c.len() as int]);
    }
    assert(a =~= left.take(a.len() as int));
    assert(c =~= right.take(c.len() as int));
    assert(b =~= left.subrange(a.len() as int + 2, left.len() - 1));
    assert(d =~= right.subrange(c.len() as int + 2, right.len() - 1));
    vstd::utf8::encode_utf8_decode_utf8(id);
    vstd::utf8::encode_utf8_decode_utf8(other_id);
    vstd::utf8::encode_utf8_decode_utf8(secret);
    vstd::utf8::encode_utf8_decode_utf8(other_secret);
}

proof fn lemma_utf8_has_no_ff(s: Seq<char>)
    ensures
        forall|i: int|
            0 <= i < vstd::utf8::encode_utf8(s).len() ==> #[trigger] vstd::utf8::encode_utf8(s)[i]
                != 0xff,
    decreases s.len(),
{
    if s.len() > 0 {
        lemma_utf8_has_no_ff(s.drop_first());
        let v = s[0] as u32;
        assert((v & 0x7F) as u8 != 0xff) by (bit_vector);
        assert(0xC0u8 | ((v >> 6) & 0x1F) as u8 != 0xff) by (bit_vector);
        assert(0xE0u8 | ((v >> 12) & 0x0F) as u8 != 0xff) by (bit_vector);
        assert(0xF0u8 | ((v >> 18) & 0x7) as u8 != 0xff) by (bit_vector);
        assert(0x80u8 | (v & 0x3F) as u8 != 0xff) by (bit_vector);
        assert(0x80u8 | ((v >> 6) & 0x3F) as u8 != 0xff) by (bit_vector);
        assert(0x80u8 | ((v >> 12) & 0x3F) as u8 != 0xff) by (bit_vector);
        let first = vstd::utf8::encode_scalar(v);
        let rest = vstd::utf8::encode_utf8(s.drop_first());
        assert forall|i: int| 0 <= i < vstd::utf8::encode_utf8(s).len() implies (
        #[trigger] vstd::utf8::encode_utf8(s)[i]) != 0xff by {
            if i >= first.len() {
                assert(vstd::utf8::encode_utf8(s)[i] == rest[i - first.len()]);
            } else {
                assert(vstd::utf8::encode_utf8(s)[i] == first[i]);
            }
        }
    }
}

} // verus!

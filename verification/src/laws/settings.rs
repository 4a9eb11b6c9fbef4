//! What a config takes from what it is made of.

use crate::config::{ConfigView, Environment};
use crate::{audience, config, text};
use vstd::prelude::*;

verus! {

/// Whether `i`, `j` and `k` take an issuer apart: whitespace, what is kept, slashes,
/// and whitespace again. What is kept does not end in a slash, and the whitespace is
/// all that there is at either end.
pub open spec fn takes_apart(issuer: Seq<char>, i: int, j: int, k: int) -> bool {
    &&& 0 <= i <= j <= k <= issuer.len()
    &&& forall|n: int| 0 <= n < i || k <= n < issuer.len() ==> text::is_whitespace(
        #[trigger] issuer[n],
    )
    &&& forall|n: int| j <= n < k ==> #[trigger] issuer[n] == '/'
    &&& i < j ==> issuer[j - 1] != '/'
    &&& i < k ==> !text::is_whitespace(issuer[i]) && !text::is_whitespace(issuer[k - 1])
}

/// A normalized issuer is the issuer without the whitespace around it, and then
/// without the slashes at its end; nothing else is lost or changed.
pub proof fn law_issuer_is_kept(issuer: Seq<char>)
    ensures
        exists|i: int, j: int, k: int| #[trigger]
            takes_apart(issuer, i, j, k) && config::normalized(issuer) == issuer.subrange(i, j),
{
    text::lemma_trim(issuer);
    let trimmed = text::trim(issuer);
    let (i, k) = choose|i: int, k: int|
        #![trigger issuer.subrange(i, k)]
        {
            &&& 0 <= i <= k <= issuer.len()
            &&& trimmed == issuer.subrange(i, k)
            &&& forall|n: int|
                0 <= n < issuer.len() && !(i <= n < k) ==> text::is_whitespace(
                    #[trigger] issuer[n],
                )
        };
    text::lemma_strip_trailing(trimmed, '/');
    let kept = config::normalized(issuer);
    let j = i + kept.len();
    assert(kept =~= issuer.subrange(i, j));
    assert forall|n: int| j <= n < k implies #[trigger] issuer[n] == '/' by {
        assert(trimmed[n - i] == issuer[n]);
    }
    if i < j {
        assert(kept.last() == issuer[j - 1]);
    }
    if i < k {
        assert(trimmed.first() == issuer[i]);
        assert(trimmed.last() == issuer[k - 1]);
    }
    assert(takes_apart(issuer, i, j, k));
}

/// There is only one way to take an issuer apart, so that the above says which issuer
/// is kept.
pub proof fn law_issuer_is_taken_apart_in_one_way(
    issuer: Seq<char>,
    i: int,
    j: int,
    k: int,
)
    requires
        takes_apart(issuer, i, j, k),
    ensures
        config::normalized(issuer) == issuer.subrange(i, j),
{
    law_issuer_is_kept(issuer);
    let (a, b, c) = choose|a: int, b: int, c: int| #[trigger]
        takes_apart(issuer, a, b, c) && config::normalized(issuer) == issuer.subrange(a, b);
    if i < k || a < c {
        if i < k {
            assert(!text::is_whitespace(issuer[i]) && !text::is_whitespace(issuer[k - 1]));
            assert(a <= i < c);
            assert(a <= k - 1 < c);
        }
        if a < c {
            assert(!text::is_whitespace(issuer[a]) && !text::is_whitespace(issuer[c - 1]));
            assert(i <= a < k);
            assert(i <= c - 1 < k);
        }
        assert(i == a && k == c);
        if j < b {
            assert(issuer[b - 1] == '/');
        }
        if b < j {
            assert(issuer[j - 1] == '/');
        }
    } else {
        assert(issuer.subrange(i, j) =~= issuer.subrange(a, b));
    }
}

/// A config holds the normalized issuer, the address of that issuer's keys, and
/// exactly the listed audiences, each without surrounding whitespace.
pub proof fn law_config_holds_what_it_is_made_of(
    issuer: Seq<char>,
    audiences: Seq<Seq<char>>,
    audience: Seq<char>,
)
    ensures
        ({
            let made = config::config_for(issuer, audiences);
            &&& made.issuer == config::normalized(issuer)
            &&& made.jwks_uri == config::normalized(issuer) + "/jwks.json"@
            &&& made.accepted_audiences.contains(audience) <==> exists|i: int|
                0 <= i < audiences.len() && text::trim(#[trigger] audiences[i]) == audience
        }),
{
    let made = config::config_for(issuer, audiences);
    let f = |a: Seq<char>| text::trim(a);
    let trimmed = audiences.map_values(f);
    if made.accepted_audiences.contains(audience) {
        let i = choose|i: int| 0 <= i < trimmed.len() && trimmed[i] == audience;
        assert(text::trim(audiences[i]) == audience);
    }
    if exists|i: int| 0 <= i < audiences.len() && text::trim(#[trigger] audiences[i]) == audience {
        let i = choose|i: int|
            0 <= i < audiences.len() && text::trim(#[trigger] audiences[i]) == audience;
        assert(trimmed[i] == audience);
    }
}

/// Whether a tenant stands between `k` and `m` in an issuer: right after `/test/`,
/// with something in it and no slash, and followed by slashes alone.
pub open spec fn has_tenant(issuer: Seq<char>, k: int, m: int) -> bool {
    &&& 6 <= k < m <= issuer.len()
    &&& issuer.subrange(k - 6, k) == "/test/"@
    &&& forall|n: int| k <= n < m ==> #[trigger] issuer[n] != '/'
    &&& forall|n: int| m <= n < issuer.len() ==> #[trigger] issuer[n] == '/'
}

/// An issuer is of the test environment exactly when it has a tenant, and of
/// production otherwise.
pub proof fn law_test_issuers_have_a_tenant(issuer: Seq<char>)
    ensures
        config::environment_of(issuer) == Environment::Test <==> exists|k: int, m: int|
            has_tenant(issuer, k, m),
        config::is_test_issuer(issuer) <==> exists|k: int, m: int| has_tenant(issuer, k, m),
{
    let bare = text::strip_trailing(issuer, '/');
    text::lemma_strip_trailing(issuer, '/');
    reveal_strlit("/test/");
    if config::is_test_issuer(issuer) {
        let (base, tenant) = choose|base: Seq<char>, tenant: Seq<char>|
            #![trigger config::test_issuer(base, tenant)]
            bare == config::test_issuer(base, tenant) && config::is_tenant(tenant);
        let k = base.len() + 6int;
        let m = bare.len() as int;
        assert(issuer.subrange(k - 6, k) =~= "/test/"@) by {
            assert forall|n: int| 0 <= n < 6 implies issuer.subrange(k - 6, k)[n] == "/test/"@[n] by {
                assert(bare[base.len() + n] == "/test/"@[n]);
                assert(bare[base.len() + n] == issuer[base.len() + n]);
            }
        }
        assert forall|n: int| k <= n < m implies #[trigger] issuer[n] != '/' by {
            assert(bare[n] == tenant[n - k]);
            assert(bare[n] == issuer[n]);
            assert(tenant.contains(tenant[n - k]));
        }
        assert(has_tenant(issuer, k, m));
    }
    if exists|k: int, m: int| has_tenant(issuer, k, m) {
        let (k, m) = choose|k: int, m: int| has_tenant(issuer, k, m);
        assert(issuer[m - 1] != '/');
        assert(bare.len() >= m) by {
            if bare.len() < m {
                assert(issuer[m - 1] == '/');
            }
        }
        assert(bare.len() <= m) by {
            if bare.len() > m {
                assert(bare.last() == issuer[bare.len() - 1]);
            }
        }
        let base = issuer.take(k - 6);
        let tenant = issuer.subrange(k, m);
        assert(bare =~= base + issuer.subrange(k - 6, k) + tenant);
        assert(bare == config::test_issuer(base, tenant));
        assert(!tenant.contains('/')) by {
            if tenant.contains('/') {
                let n = choose|n: int| 0 <= n < tenant.len() && tenant[n] == '/';
                assert(issuer[k + n] == '/');
            }
        }
        assert(config::is_tenant(tenant));
    }
}

/// The environment of a config is that of its issuer, whatever else it holds.
pub proof fn law_environment_follows_the_issuer(held: ConfigView)
    ensures
        held.environment() == Environment::Test <==> config::is_test_issuer(held.issuer),
        held.environment() == config::environment_of(held.issuer),
{
}

/// A variable's name is the prefix and `_ISSUER` or `_AUDIENCE`, where the empty
/// prefix stands for `CHIRP_AUTH`.
pub proof fn law_variables_are_named_by_the_prefix(prefix: Seq<char>)
    ensures
        ({
            let shown = if prefix.len() == 0 {
                "CHIRP_AUTH"@
            } else {
                prefix
            };
            &&& config::env_names(prefix).0 == shown + "_ISSUER"@
            &&& config::env_names(prefix).1 == shown + "_AUDIENCE"@
        }),
{
    if prefix.len() == 0 {
        reveal_strlit("CHIRP_AUTH");
        reveal_strlit("_ISSUER");
        reveal_strlit("_AUDIENCE");
        reveal_strlit("CHIRP_AUTH_ISSUER");
        reveal_strlit("CHIRP_AUTH_AUDIENCE");
        assert("CHIRP_AUTH_ISSUER"@ =~= "CHIRP_AUTH"@ + "_ISSUER"@);
        assert("CHIRP_AUTH_AUDIENCE"@ =~= "CHIRP_AUTH"@ + "_AUDIENCE"@);
    }
}

/// Whether two texts agree before `i`, and there the first ends or holds the smaller
/// character.
pub open spec fn differs_at(a: Seq<char>, b: Seq<char>, i: int) -> bool {
    &&& 0 <= i <= a.len()
    &&& i < b.len()
    &&& forall|j: int| 0 <= j < i ==> #[trigger] a[j] == b[j]
    &&& i < a.len() ==> a[i] < b[i]
}

/// The order of audiences is decided at the first difference, and a text comes after
/// its own beginnings.
pub proof fn law_first_difference_decides(a: Seq<char>, b: Seq<char>)
    ensures
        audience::comes_before(a, b) <==> exists|i: int| differs_at(a, b, i),
    decreases a.len(),
{
    if b.len() > 0 && a.len() > 0 && a[0] == b[0] {
        let x = a.drop_first();
        let y = b.drop_first();
        law_first_difference_decides(x, y);
        if exists|i: int| differs_at(x, y, i) {
            let i = choose|i: int| differs_at(x, y, i);
            assert forall|j: int| 0 <= j < i + 1 implies #[trigger] a[j] == b[j] by {
                if j > 0 {
                    assert(x[j - 1] == y[j - 1]);
                }
            }
            assert(differs_at(a, b, i + 1));
        }
        if exists|i: int| differs_at(a, b, i) {
            let i = choose|i: int| differs_at(a, b, i);
            assert forall|j: int| 0 <= j < i - 1 implies #[trigger] x[j] == y[j] by {
                assert(a[j + 1] == b[j + 1]);
            }
            assert(differs_at(x, y, i - 1));
        }
    } else if b.len() > 0 {
        if audience::comes_before(a, b) {
            assert(differs_at(a, b, 0));
        }
        if exists|i: int| differs_at(a, b, i) {
            let i = choose|i: int| differs_at(a, b, i);
            if i > 0 {
                assert(a[0] == b[0]);
            }
        }
    }
}

/// Of listed audiences, each later one is decided against each earlier one at their
/// first difference, so that the list is sorted and holds nothing twice.
pub proof fn law_listed_audiences_are_sorted(items: Seq<Seq<char>>, i: int, j: int)
    requires
        audience::increasing(items),
        0 <= i < j < items.len(),
    ensures
        exists|k: int| differs_at(items[i], items[j], k),
        items[i] != items[j],
{
    law_first_difference_decides(items[i], items[j]);
    audience::lemma_order_total(items[i], items[j]);
}

} // verus!

//! What a relying party verifies tokens against, and the environment that
//! follows from it.

use crate::audience;
use crate::audience::AudienceSet;
use crate::text;
use vstd::prelude::*;

verus! {

/// The canonical production ChirpAuth issuer.
///
/// Consumers should derive their [`ChirpAuthConfig`] from this rather than
/// re-typing the URL; a typo in an issuer string is a silent claim mismatch at
/// runtime.
pub const DEFAULT_ISSUER: &'static str = "https://signin.chirpauth.com";

/// Which ChirpAuth keyset verified a token: **provenance, not a claim**.
///
/// A ChirpAuth test issuer is structurally `{prod_issuer}/test/{tenant}`, with
/// its own signing key and JWKS, so the environment follows from the issuer that
/// a token was verified against.
#[derive(Clone, Copy, Debug, PartialEq, Eq, Structural)]
pub enum Environment {
    Production,
    Test,
}

/// Whether an issuer, without trailing slashes, ends in `/test/{tenant}` for a
/// single non-empty segment `{tenant}`.
pub open spec fn is_test_issuer(issuer: Seq<char>) -> bool {
    exists|base: Seq<char>, tenant: Seq<char>|
        #![trigger test_issuer(base, tenant)]
        text::strip_trailing(issuer, '/') == test_issuer(base, tenant) && is_tenant(tenant)
}

/// The test issuer of a tenant.
pub open spec fn test_issuer(base: Seq<char>, tenant: Seq<char>) -> Seq<char> {
    base + "/test/"@ + tenant
}

/// A tenant is a single non-empty path segment.
pub open spec fn is_tenant(tenant: Seq<char>) -> bool {
    tenant.len() > 0 && !tenant.contains('/')
}

/// The environment of an issuer.
pub open spec fn environment_of(issuer: Seq<char>) -> Environment {
    if is_test_issuer(issuer) {
        Environment::Test
    } else {
        Environment::Production
    }
}

impl Environment {
    /// Classify a verified issuer. A test issuer ends in a single non-empty
    /// `/test/{tenant}` segment; everything else is production.
    pub fn from_issuer(issuer: &str) -> (r: Environment)
        ensures
            r == environment_of(issuer@),
    {
        let trimmed = text::strip_trailing_char(issuer, '/');
        let chars = text::chars_of(trimmed);
        let mut last: usize = chars.len();
        while last > 0 && chars[last - 1] != '/'
            invariant
                last <= chars.len(),
                chars@ == trimmed@,
                forall|j: int| last <= j < chars.len() ==> chars@[j] != '/',
            decreases last,
        {
            last -= 1;
        }
        // The tenant, if there is one, is what follows the last slash.
        let marker = "/test/";
        proof {
            reveal_strlit("/test/");
        }
        if last >= 6 && text::same_text(trimmed.substring_char(last - 6, last), marker) {
            proof {
                let base = trimmed@.take(last - 6);
                let tenant = trimmed@.skip(last as int);
                text::lemma_strip_trailing(issuer@, '/');
                assert(trimmed@ =~= base + trimmed@.subrange(last - 6, last as int) + tenant);
                assert(trimmed@ == test_issuer(base, tenant));
                if tenant.len() == 0 {
                    assert(trimmed@.last() == '/');
                }
                assert(is_tenant(tenant));
            }
            Environment::Test
        } else {
            proof {
                if is_test_issuer(issuer@) {
                    let (base, tenant) = choose|base: Seq<char>, tenant: Seq<char>|
                        #![trigger test_issuer(base, tenant)]
                        trimmed@ == test_issuer(base, tenant) && is_tenant(tenant);
                    let split = base.len() + 6;
                    assert(trimmed@[split - 1] == '/');
                    assert forall|j: int| split <= j < trimmed@.len() implies trimmed@[j] != '/' by {
                        assert(trimmed@[j] == tenant[j - split]);
                    }
                    assert(last == split);
                    assert(trimmed@.subrange(last - 6, last as int) =~= "/test/"@);
                }
            }
            Environment::Production
        }
    }
}

/// Endpoint and audience to verify ChirpAuth tokens against.
///
/// The `jwks_uri` is **derived** (`{issuer}/jwks.json`), which removes a whole
/// class of misconfiguration where a relying party verifies issuer A's claims
/// against issuer B's keyset. Tests that need to point the fetch elsewhere use
/// [`ChirpAuthConfig::with_jwks_uri`].
#[derive(Debug)]
pub struct ChirpAuthConfig {
    issuer: String,
    jwks_uri: String,
    /// The audiences that this relying party accepts. A token is accepted if any
    /// of its `aud` values is among them.
    accepted_audiences: AudienceSet,
}

/// What a [`ChirpAuthConfig`] says.
pub struct ConfigView {
    pub issuer: Seq<char>,
    pub jwks_uri: Seq<char>,
    pub accepted_audiences: Set<Seq<char>>,
}

impl ConfigView {
    /// The environment that the configured issuer belongs to.
    pub open spec fn environment(self) -> Environment {
        environment_of(self.issuer)
    }
}

impl View for ChirpAuthConfig {
    type V = ConfigView;

    closed spec fn view(&self) -> ConfigView {
        ConfigView {
            issuer: self.issuer@,
            jwks_uri: self.jwks_uri@,
            accepted_audiences: self.accepted_audiences@,
        }
    }
}

impl Clone for ChirpAuthConfig {
    fn clone(&self) -> (r: ChirpAuthConfig)
        ensures
            r@ == self@,
    {
        ChirpAuthConfig {
            issuer: self.issuer.clone(),
            jwks_uri: self.jwks_uri.clone(),
            accepted_audiences: self.accepted_audiences.clone(),
        }
    }
}

/// An issuer without surrounding whitespace and then without trailing slashes.
pub open spec fn normalized(issuer: Seq<char>) -> Seq<char> {
    text::strip_trailing(text::trim(issuer), '/')
}

/// The config of an issuer and a list of audiences.
pub open spec fn config_for(issuer: Seq<char>, audiences: Seq<Seq<char>>) -> ConfigView {
    ConfigView {
        issuer: normalized(issuer),
        jwks_uri: normalized(issuer) + "/jwks.json"@,
        accepted_audiences: trimmed_set(audiences),
    }
}

/// The strings of a list, each without surrounding whitespace.
pub open spec fn trimmed_set(audiences: Seq<Seq<char>>) -> Set<Seq<char>> {
    audiences.map_values(|a: Seq<char>| text::trim(a)).to_set()
}

/// An issuer without surrounding whitespace and then without trailing slashes.
pub fn normalize_issuer(issuer: &str) -> (r: String)
    ensures
        r@ == normalized(issuer@),
{
    text::strip_trailing_char(text::trim_str(issuer), '/').to_owned()
}

impl ChirpAuthConfig {
    /// Build a config for a single audience.
    ///
    /// The issuer is normalized (trimmed, trailing slash stripped) and the
    /// `jwks_uri` is derived as `{issuer}/jwks.json`.
    pub fn new(issuer: &str, audience: &str) -> (r: ChirpAuthConfig)
        ensures
            r@ == config_for(issuer@, seq![audience@]),
    {
        let mut audiences: Vec<String> = Vec::new();
        audiences.push(audience.to_owned());
        assert(audience::texts(audiences@) =~= seq![audience@]);
        Self::with_audiences(issuer, audiences)
    }

    /// Build a config that accepts any of several audiences (an allowlist).
    ///
    /// A token is accepted when any of its `aud` values is in `audiences`. An
    /// empty list yields a config that accepts nothing.
    pub fn with_audiences(issuer: &str, audiences: Vec<String>) -> (r: ChirpAuthConfig)
        ensures
            r@ == config_for(issuer@, audience::texts(audiences@)),
    {
        let issuer = normalize_issuer(issuer);
        let jwks_uri = text::concat(issuer.as_str(), "/jwks.json");
        let ghost all = audience::texts(audiences@);
        let mut accepted = AudienceSet::new();
        let mut i: usize = 0;
        assert(trimmed_set(all.take(0)) =~= Set::<Seq<char>>::empty());
        while i < audiences.len()
            invariant
                i <= audiences.len(),
                all == audience::texts(audiences@),
                accepted@ == trimmed_set(all.take(i as int)),
            decreases audiences.len() - i,
        {
            accepted = accepted.with(text::trim_str(audiences[i].as_str()).to_owned());
            proof {
                lemma_trimmed_set_push(all, i as int);
            }
            i += 1;
        }
        assert(all.take(all.len() as int) =~= all);
        ChirpAuthConfig { issuer, jwks_uri, accepted_audiences: accepted }
    }

    /// Override the JWKS fetch URL. **Test-only**: production callers must let
    /// the URL derive from the issuer. Returns `self` for chaining.
    pub fn with_jwks_uri(self, jwks_uri: &str) -> (r: ChirpAuthConfig)
        ensures
            r@ == (ConfigView { jwks_uri: jwks_uri@, ..self@ }),
    {
        ChirpAuthConfig {
            issuer: self.issuer,
            jwks_uri: jwks_uri.to_owned(),
            accepted_audiences: self.accepted_audiences,
        }
    }

    /// Add another accepted audience to the allowlist.
    pub fn add_audience(self, audience: &str) -> (r: ChirpAuthConfig)
        ensures
            r@ == (ConfigView {
                accepted_audiences: self@.accepted_audiences.insert(text::trim(audience@)),
                ..self@
            }),
    {
        ChirpAuthConfig {
            issuer: self.issuer,
            jwks_uri: self.jwks_uri,
            accepted_audiences: self.accepted_audiences.with(text::trim_str(audience).to_owned()),
        }
    }

    /// The normalized issuer this config verifies against.
    pub fn issuer(&self) -> (r: &str)
        ensures
            r@ == self@.issuer,
    {
        self.issuer.as_str()
    }

    /// The derived JWKS endpoint.
    pub fn jwks_uri(&self) -> (r: &str)
        ensures
            r@ == self@.jwks_uri,
    {
        self.jwks_uri.as_str()
    }

    /// The audience allowlist.
    pub fn accepted_audiences(&self) -> (r: &AudienceSet)
        ensures
            r@ == self@.accepted_audiences,
    {
        &self.accepted_audiences
    }

    /// The [`Environment`] this config's issuer belongs to, which the verifier
    /// enforces.
    pub fn environment(&self) -> (r: Environment)
        ensures
            r == self@.environment(),
    {
        Environment::from_issuer(self.issuer.as_str())
    }

    /// Build a config from the values of the issuer and audience environment
    /// variables (see [`env_var_names`]), if both are set and not blank.
    pub fn from_env_values(issuer: Option<String>, audience: Option<String>) -> (r: Option<
        ChirpAuthConfig,
    >)
        ensures
            match r {
                Some(config) => {
                    &&& issuer matches Some(i) && text::trim(i@).len() > 0
                    &&& audience matches Some(a) && text::trim(a@).len() > 0
                    &&& config@ == config_for(issuer->0@, seq![audience->0@])
                },
                None => {
                    ||| issuer is None
                    ||| audience is None
                    ||| text::trim(issuer->0@).len() == 0
                    ||| text::trim(audience->0@).len() == 0
                },
            },
    {
        match (issuer, audience) {
            (Some(i), Some(a)) => {
                let issuer_value = text::trim_str(i.as_str());
                let audience_value = text::trim_str(a.as_str());
                if issuer_value.is_empty() || audience_value.is_empty() {
                    None
                } else {
                    proof {
                        text::lemma_trim_idempotent(i@);
                        text::lemma_trim_idempotent(a@);
                        let once = seq![text::trim(a@)];
                        let raw = seq![a@];
                        assert(once.map_values(|x: Seq<char>| text::trim(x)) =~= raw.map_values(
                            |x: Seq<char>| text::trim(x),
                        ));
                    }
                    Some(Self::new(issuer_value, audience_value))
                }
            },
            _ => None,
        }
    }
}

pub(crate) proof fn lemma_trimmed_set_push(all: Seq<Seq<char>>, i: int)
    requires
        0 <= i < all.len(),
    ensures
        trimmed_set(all.take(i + 1)) == trimmed_set(all.take(i)).insert(text::trim(all[i])),
{
    let f = |a: Seq<char>| text::trim(a);
    let shorter = all.take(i).map_values(f);
    let longer = all.take(i + 1).map_values(f);
    assert(longer =~= shorter.push(text::trim(all[i])));
    assert forall|t: Seq<char>| longer.contains(t) <==> shorter.contains(t) || t == text::trim(
        all[i],
    ) by {
        if shorter.contains(t) {
            let k = choose|k: int| 0 <= k < shorter.len() && shorter[k] == t;
            assert(longer[k] == t);
        }
        assert(longer[i] == text::trim(all[i]));
    }
    assert(longer.to_set() =~= shorter.to_set().insert(text::trim(all[i])));
}

/// The names of the environment variables that hold the issuer and the audience.
pub open spec fn env_names(prefix: Seq<char>) -> (Seq<char>, Seq<char>) {
    if prefix.len() == 0 {
        ("CHIRP_AUTH_ISSUER"@, "CHIRP_AUTH_AUDIENCE"@)
    } else {
        (prefix + "_ISSUER"@, prefix + "_AUDIENCE"@)
    }
}

/// The names of the environment variables that hold the issuer and the audience:
/// `{prefix}_ISSUER` and `{prefix}_AUDIENCE`, or the unprefixed
/// `CHIRP_AUTH_ISSUER` and `CHIRP_AUTH_AUDIENCE` for an empty prefix.
pub fn env_var_names(prefix: &str) -> (r: (String, String))
    ensures
        (r.0@, r.1@) == env_names(prefix@),
{
    if prefix.is_empty() {
        ("CHIRP_AUTH_ISSUER".to_owned(), "CHIRP_AUTH_AUDIENCE".to_owned())
    } else {
        (text::concat(prefix, "_ISSUER"), text::concat(prefix, "_AUDIENCE"))
    }
}

} // verus!

use chirp_auth_client::config::{env_var_names, normalize_issuer};
use chirp_auth_client::{AudienceSet, ChirpAuthConfig, Environment, DEFAULT_ISSUER};
use std::collections::HashMap;

/// Looks up a prefix in `vars` the way that the environment is looked up.
fn from_env(vars: &HashMap<String, String>, prefix: &str) -> Option<ChirpAuthConfig> {
    let (issuer_var, audience_var) = env_var_names(prefix);
    ChirpAuthConfig::from_env_values(
        vars.get(&issuer_var).cloned(),
        vars.get(&audience_var).cloned(),
    )
}

#[test]
fn from_env_with_prefix_reads_prefixed_vars() {
    let prefix = "CHIRP_AUTH_CLIENT_TEST_PREFIX_A";
    let mut vars: HashMap<String, String> = HashMap::new();
    vars.insert(format!("{prefix}_ISSUER"), "https://example.test/".to_owned());
    vars.insert(format!("{prefix}_AUDIENCE"), "drive".to_owned());
    let config = from_env(&vars, prefix).expect("config");
    assert_eq!(config.issuer(), "https://example.test");
    assert!(config.accepted_audiences().contains("drive"));
    assert_eq!(config.jwks_uri(), "https://example.test/jwks.json");
}

#[test]
fn from_env_returns_none_when_missing() {
    let prefix = "CHIRP_AUTH_CLIENT_TEST_PREFIX_MISSING";
    assert!(from_env(&HashMap::new(), prefix).is_none());
}

#[test]
fn from_env_returns_none_when_empty() {
    let prefix = "CHIRP_AUTH_CLIENT_TEST_PREFIX_EMPTY";
    let mut vars: HashMap<String, String> = HashMap::new();
    vars.insert(format!("{prefix}_ISSUER"), "   ".to_owned());
    vars.insert(format!("{prefix}_AUDIENCE"), "drive".to_owned());
    assert!(from_env(&vars, prefix).is_none());
}

#[test]
fn one_variable_is_not_enough() {
    let set = Some("x".to_owned());
    assert!(ChirpAuthConfig::from_env_values(set.clone(), None).is_none());
    assert!(ChirpAuthConfig::from_env_values(None, set.clone()).is_none());
    assert!(ChirpAuthConfig::from_env_values(set.clone(), Some(" \t".to_owned())).is_none());
    assert!(ChirpAuthConfig::from_env_values(set.clone(), set).is_some());
}

#[test]
fn values_from_the_environment_are_trimmed() {
    let config = ChirpAuthConfig::from_env_values(
        Some("  https://example.test/test/acme//\n".to_owned()),
        Some(" drive ".to_owned()),
    )
    .expect("config");
    assert_eq!(config.issuer(), "https://example.test/test/acme");
    assert!(config.accepted_audiences().contains("drive"));
    assert_eq!(config.environment(), Environment::Test);
}

#[test]
fn variable_names_follow_the_prefix() {
    assert_eq!(
        env_var_names(""),
        ("CHIRP_AUTH_ISSUER".to_owned(), "CHIRP_AUTH_AUDIENCE".to_owned())
    );
    assert_eq!(
        env_var_names("DRIVE"),
        ("DRIVE_ISSUER".to_owned(), "DRIVE_AUDIENCE".to_owned())
    );
}

#[test]
fn new_derives_jwks_uri_and_normalizes_issuer() {
    let config = ChirpAuthConfig::new("https://signin.chirpauth.com/", "drive");
    assert_eq!(config.issuer(), "https://signin.chirpauth.com");
    assert_eq!(config.jwks_uri(), "https://signin.chirpauth.com/jwks.json");
    assert_eq!(config.environment(), Environment::Production);
}

#[test]
fn default_issuer_is_production_environment() {
    let config = ChirpAuthConfig::new(DEFAULT_ISSUER, "drive");
    assert_eq!(config.environment(), Environment::Production);
    assert_eq!(config.issuer(), "https://signin.chirpauth.com");
}

#[test]
fn with_audiences_builds_allowlist() {
    let config = ChirpAuthConfig::with_audiences(
        DEFAULT_ISSUER,
        vec!["a".to_owned(), "b".to_owned(), "c".to_owned()],
    );
    assert!(config.accepted_audiences().contains("a"));
    assert!(config.accepted_audiences().contains("b"));
    assert!(config.accepted_audiences().contains("c"));
    assert!(!config.accepted_audiences().contains("d"));
}

#[test]
fn add_audience_extends_allowlist() {
    let config = ChirpAuthConfig::new(DEFAULT_ISSUER, "a").add_audience("b");
    assert!(config.accepted_audiences().contains("a"));
    assert!(config.accepted_audiences().contains("b"));
}

#[test]
fn environment_from_issuer_classifies_provenance() {
    assert_eq!(Environment::from_issuer("https://signin.chirpauth.com"), Environment::Production);
    assert_eq!(Environment::from_issuer("https://signin.chirpauth.com/"), Environment::Production);
    assert_eq!(Environment::from_issuer("https://signin.chirpauth.com/test/acme"), Environment::Test);
    assert_eq!(Environment::from_issuer("https://signin.chirpauth.com/test/acme/"), Environment::Test);
    // multi-segment after /test/ is not a valid single-tenant test issuer
    assert_eq!(Environment::from_issuer("https://signin.chirpauth.com/test/a/b"), Environment::Production);
    // empty tenant, and a host merely named "test", are production
    assert_eq!(Environment::from_issuer("https://signin.chirpauth.com/test/"), Environment::Production);
    assert_eq!(Environment::from_issuer("https://test.example.com"), Environment::Production);
}

#[test]
fn environment_edge_cases() {
    assert_eq!(Environment::from_issuer(""), Environment::Production);
    assert_eq!(Environment::from_issuer("////"), Environment::Production);
    assert_eq!(Environment::from_issuer("/test/a"), Environment::Test);
    assert_eq!(Environment::from_issuer("/test/a///"), Environment::Test);
    assert_eq!(Environment::from_issuer("test/a"), Environment::Production);
    assert_eq!(Environment::from_issuer("x/test/test"), Environment::Test);
    assert_eq!(Environment::from_issuer("x/test/test/b"), Environment::Test);
    assert_eq!(Environment::from_issuer("x/test//a"), Environment::Production);
    assert_eq!(Environment::from_issuer("x/TEST/a"), Environment::Production);
    assert_eq!(Environment::from_issuer("x/test/ä"), Environment::Test);
    assert_eq!(Environment::from_issuer("x/contest/a"), Environment::Production);
}

#[test]
fn issuer_is_trimmed_before_slashes_are_stripped() {
    assert_eq!(normalize_issuer(" \u{3000}https://a.test// \n"), "https://a.test");
    assert_eq!(normalize_issuer(""), "");
    assert_eq!(normalize_issuer(" / "), "");
    // Whitespace before a trailing slash is only seen on a second pass.
    assert_eq!(normalize_issuer("a /"), "a ");
    assert_eq!(normalize_issuer("a "), "a");
    // A normalized issuer stays as it is.
    assert_eq!(normalize_issuer("https://a.test"), "https://a.test");
}

#[test]
fn trailing_slash_makes_no_difference() {
    let plain = ChirpAuthConfig::new("https://a.test/test/t", "x");
    let slash = ChirpAuthConfig::new("https://a.test/test/t/", "x");
    assert_eq!(plain.issuer(), slash.issuer());
    assert_eq!(plain.jwks_uri(), slash.jwks_uri());
    assert_eq!(plain.environment(), slash.environment());
}

#[test]
fn jwks_uri_can_be_overridden_alone() {
    let config = ChirpAuthConfig::new("https://a.test", "x").with_jwks_uri("http://127.0.0.1/j");
    assert_eq!(config.jwks_uri(), "http://127.0.0.1/j");
    assert_eq!(config.issuer(), "https://a.test");
    assert!(config.accepted_audiences().contains("x"));
}

#[test]
fn audiences_are_trimmed_sorted_and_unique() {
    let config = ChirpAuthConfig::with_audiences(
        DEFAULT_ISSUER,
        vec![" b ".to_owned(), "ab".to_owned(), "b".to_owned(), "a".to_owned(), "é".to_owned()],
    )
    .add_audience("\tz")
    .add_audience("z");
    assert_eq!(config.accepted_audiences().as_slice(), ["a", "ab", "b", "z", "é"]);
    assert!(!config.accepted_audiences().contains(" b "));
    let copy = config.clone();
    assert_eq!(copy.accepted_audiences().as_slice(), config.accepted_audiences().as_slice());
    assert_eq!(copy.issuer(), config.issuer());
    assert_eq!(copy.jwks_uri(), config.jwks_uri());
}

#[test]
fn listed_and_added_audiences_are_the_same() {
    let listed = ChirpAuthConfig::with_audiences("i", vec!["a".to_owned(), " b".to_owned()]);
    let added = ChirpAuthConfig::with_audiences("i", vec!["a".to_owned()]).add_audience(" b");
    assert_eq!(listed.accepted_audiences().as_slice(), added.accepted_audiences().as_slice());
}

#[test]
fn empty_list_makes_an_empty_allowlist() {
    let config = ChirpAuthConfig::with_audiences("i", vec![]);
    assert!(config.accepted_audiences().as_slice().is_empty());
    assert!(!config.accepted_audiences().contains(""));
}

#[test]
fn audience_set_keeps_the_order_of_strings() {
    let mut set = AudienceSet::new();
    let mut sorted = std::collections::BTreeSet::new();
    for word in ["m", "", "zz", "z", "Z", "ß", "\u{10000}", "\u{ffff}", "m", "ma", "\u{7f}"] {
        set = set.with(word.to_owned());
        sorted.insert(word.to_owned());
        let expected: Vec<String> = sorted.iter().cloned().collect();
        assert_eq!(set.as_slice(), expected.as_slice());
    }
}

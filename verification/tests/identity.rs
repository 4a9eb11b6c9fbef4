use chirp_auth_client::audience::AudienceClaim;
use chirp_auth_client::identity::{accept_id_claims, accept_jws_claims, principal_of};
use chirp_auth_client::verify::judge_jws;
use chirp_auth_client::{
    ChirpAuthConfig, ChirpAuthError, ChirpClaims, ChirpVerifiedIdentity, Environment, VerifyOptions,
};

const NOW: i64 = 1_000;

fn one(audience: &str) -> AudienceClaim {
    AudienceClaim::One(audience.to_owned())
}

fn many(audiences: &[&str]) -> AudienceClaim {
    AudienceClaim::Many(audiences.iter().map(|a| (*a).to_owned()).collect())
}

fn some(value: &str) -> Option<String> {
    Some(value.to_owned())
}

fn config() -> ChirpAuthConfig {
    ChirpAuthConfig::new("https://a.test", "aud")
}

fn human() -> ChirpClaims {
    ChirpClaims {
        iss: "https://a.test".to_owned(),
        sub: "sub_a".to_owned(),
        aud: one("aud"),
        exp: NOW + 1,
        act: None,
        owner_sub: None,
        email: None,
        name: None,
        root_sub: None,
        test: None,
    }
}

fn machine() -> ChirpClaims {
    ChirpClaims { act: some("machine"), owner_sub: some("sub_owner"), ..human() }
}

fn accepting_machines() -> VerifyOptions {
    VerifyOptions { accept_machine: true, ..Default::default() }
}

#[test]
fn identity_sub_returns_underlying_sub() {
    let human = ChirpVerifiedIdentity::Human {
        sub: "sub_abc".into(),
        email: None,
        name: None,
        root_sub: "sub_abc".into(),
    };
    assert_eq!(human.sub(), "sub_abc");
    let machine = ChirpVerifiedIdentity::Machine {
        sub: "agent_xyz".into(),
        owner_sub: "sub_owner".into(),
        client_id: "cs_live_1".into(),
    };
    assert_eq!(machine.sub(), "agent_xyz");
}

#[test]
fn options_default_to_humans_only() {
    let options = VerifyOptions::default();
    assert!(!options.require_email);
    assert!(!options.accept_machine);
    assert!(!options.accept_test);
}

#[test]
fn token_expires_at_its_expiry() {
    let options = VerifyOptions::default();
    let at = |now: i64| accept_id_claims(&config(), human(), &options, now);
    assert!(at(NOW).is_ok());
    assert!(at(i64::MIN).is_ok());
    assert!(matches!(at(NOW + 1), Err(ChirpAuthError::Expired)));
    assert!(matches!(at(i64::MAX), Err(ChirpAuthError::Expired)));
}

#[test]
fn issuer_must_match_exactly() {
    for iss in ["https://a.test/", " https://a.test", "https://A.test", "https://a.tes", ""] {
        let claims = ChirpClaims { iss: iss.to_owned(), ..human() };
        assert!(matches!(
            accept_id_claims(&config(), claims, &VerifyOptions::default(), NOW),
            Err(ChirpAuthError::ClaimMismatch)
        ));
    }
}

#[test]
fn any_allowed_audience_will_do() {
    let accepts = |aud: AudienceClaim| {
        let claims = ChirpClaims { aud, ..human() };
        accept_id_claims(&config(), claims, &VerifyOptions::default(), NOW).is_ok()
    };
    assert!(accepts(one("aud")));
    assert!(accepts(many(&["aud"])));
    assert!(accepts(many(&["x", "aud", "y"])));
    assert!(!accepts(many(&[])));
    assert!(!accepts(many(&["x", "y"])));
    // The claim is taken as it stands.
    assert!(!accepts(one(" aud")));
}

#[test]
fn empty_allowlist_accepts_nothing() {
    let nobody = ChirpAuthConfig::with_audiences("https://a.test", vec![]);
    assert!(matches!(
        accept_id_claims(&nobody, human(), &VerifyOptions::default(), NOW),
        Err(ChirpAuthError::ClaimMismatch)
    ));
}

#[test]
fn allowing_more_audiences_keeps_what_was_accepted() {
    let wider = config().add_audience("other");
    assert!(accept_id_claims(&wider, human(), &VerifyOptions::default(), NOW).is_ok());
}

#[test]
fn claims_are_judged_in_order() {
    let options = VerifyOptions { require_email: true, ..Default::default() };
    let judge = |claims: ChirpClaims| accept_id_claims(&config(), claims, &options, NOW);
    let mut claims = ChirpClaims {
        iss: "x".to_owned(),
        exp: NOW,
        test: Some(true),
        sub: " ".to_owned(),
        ..human()
    };
    assert!(matches!(judge(claims.clone()), Err(ChirpAuthError::ClaimMismatch)));
    claims.iss = "https://a.test".to_owned();
    assert!(matches!(judge(claims.clone()), Err(ChirpAuthError::Expired)));
    claims.exp = NOW + 1;
    assert!(matches!(judge(claims.clone()), Err(ChirpAuthError::EnvironmentMismatch)));
    claims.test = Some(false);
    assert!(matches!(judge(claims.clone()), Err(ChirpAuthError::InvalidSubject)));
    claims.sub = "s".to_owned();
    assert!(matches!(judge(claims.clone()), Err(ChirpAuthError::EmailRequired)));
    claims.email = some("u@example.test");
    assert!(judge(claims).is_ok());
}

#[test]
fn environment_follows_the_issuer_and_not_the_flag() {
    let tenant = ChirpAuthConfig::new("https://a.test/test/t", "aud");
    for accept_test in [false, true] {
        let options = VerifyOptions { accept_test, ..Default::default() };
        let of_tenant = |test: Option<bool>| ChirpClaims {
            iss: "https://a.test/test/t".to_owned(),
            test,
            ..human()
        };
        let verified = accept_id_claims(&tenant, of_tenant(Some(true)), &options, NOW).unwrap();
        assert_eq!(verified.environment, Environment::Test);
        for test in [None, Some(false)] {
            assert!(matches!(
                accept_id_claims(&tenant, of_tenant(test), &options, NOW),
                Err(ChirpAuthError::EnvironmentMismatch)
            ));
            let claims = ChirpClaims { test, ..human() };
            let verified = accept_id_claims(&config(), claims, &options, NOW).unwrap();
            assert_eq!(verified.environment, Environment::Production);
        }
        assert!(matches!(
            accept_id_claims(&config(), ChirpClaims { test: Some(true), ..human() }, &options, NOW),
            Err(ChirpAuthError::EnvironmentMismatch)
        ));
    }
}

#[test]
fn subject_is_trimmed_and_checked() {
    let sub_of = |sub: &str| {
        let claims = ChirpClaims { sub: sub.to_owned(), ..human() };
        principal_of(claims, &VerifyOptions::default()).map(|identity| identity.sub().to_owned())
    };
    assert_eq!(sub_of(" s \n").unwrap(), "s");
    assert_eq!(sub_of(&"ä".repeat(128)).unwrap(), "ä".repeat(128));
    for sub in ["", "  ", "a\u{0}b", "a\u{7f}", "a\u{85}b", "a\nb", &"a".repeat(129)] {
        assert!(matches!(sub_of(sub), Err(ChirpAuthError::InvalidSubject)), "{sub:?}");
    }
}

#[test]
fn blank_fields_count_as_missing() {
    let claims = ChirpClaims {
        email: some("  "),
        name: some(" Ada "),
        root_sub: some(""),
        ..human()
    };
    match principal_of(claims, &VerifyOptions::default()).unwrap() {
        ChirpVerifiedIdentity::Human { sub, email, name, root_sub } => {
            assert_eq!(sub, "sub_a");
            assert_eq!(email, None);
            assert_eq!(name.as_deref(), Some("Ada"));
            assert_eq!(root_sub, "sub_a");
        }
        _ => panic!("expected Human"),
    }
    let claims = ChirpClaims { email: some(" u@x "), root_sub: some(" root "), ..human() };
    match principal_of(claims, &VerifyOptions::default()).unwrap() {
        ChirpVerifiedIdentity::Human { email, root_sub, .. } => {
            assert_eq!(email.as_deref(), Some("u@x"));
            assert_eq!(root_sub, "root");
        }
        _ => panic!("expected Human"),
    }
}

#[test]
fn required_email_binds_humans_only() {
    let options = VerifyOptions { require_email: true, accept_machine: true, ..Default::default() };
    assert!(matches!(principal_of(human(), &options), Err(ChirpAuthError::EmailRequired)));
    let blank = ChirpClaims { email: some(" "), ..human() };
    assert!(matches!(principal_of(blank, &options), Err(ChirpAuthError::EmailRequired)));
    let there = ChirpClaims { email: some("u@x"), ..human() };
    assert!(matches!(
        principal_of(there, &options),
        Ok(ChirpVerifiedIdentity::Human { email: Some(_), .. })
    ));
    assert!(matches!(
        principal_of(machine(), &options),
        Ok(ChirpVerifiedIdentity::Machine { .. })
    ));
}

#[test]
fn only_the_word_machine_makes_a_machine() {
    for act in ["Machine", "machine ", "", "human"] {
        let claims = ChirpClaims { act: some(act), ..machine() };
        assert!(matches!(
            principal_of(claims, &accepting_machines()),
            Ok(ChirpVerifiedIdentity::Human { .. })
        ));
    }
    assert!(matches!(
        principal_of(machine(), &VerifyOptions::default()),
        Err(ChirpAuthError::MachineNotAllowed)
    ));
}

#[test]
fn machine_needs_an_owner_and_a_single_audience() {
    let judge = |claims: ChirpClaims| principal_of(claims, &accepting_machines());
    for owner_sub in [None, some(""), some(" \t")] {
        assert!(matches!(
            judge(ChirpClaims { owner_sub, ..machine() }),
            Err(ChirpAuthError::MalformedMachineToken)
        ));
    }
    for aud in [many(&[]), many(&["aud", "x"])] {
        assert!(matches!(
            judge(ChirpClaims { aud, ..machine() }),
            Err(ChirpAuthError::MalformedMachineToken)
        ));
    }
    match judge(ChirpClaims { aud: many(&["aud"]), owner_sub: some(" o "), ..machine() }).unwrap() {
        ChirpVerifiedIdentity::Machine { sub, owner_sub, client_id } => {
            assert_eq!(sub, "sub_a");
            assert_eq!(owner_sub, "o");
            assert_eq!(client_id, "aud");
        }
        _ => panic!("expected Machine"),
    }
}

fn raw() -> serde_json::Map<String, serde_json::Value> {
    let mut raw = serde_json::Map::new();
    raw.insert("extra".to_owned(), serde_json::Value::from(7));
    raw
}

#[test]
fn jws_has_no_machine_test_or_subject_policy() {
    let claims = ChirpClaims {
        sub: " \u{0} ".to_owned(),
        test: Some(true),
        aud: many(&["x", "aud"]),
        ..machine()
    };
    let accepted = accept_jws_claims(&config(), claims, raw(), true, NOW).unwrap();
    assert_eq!(accepted.iss, "https://a.test");
    assert_eq!(accepted.sub, " \u{0} ");
    assert_eq!(accepted.aud, ["x", "aud"]);
    assert_eq!(accepted.exp, NOW + 1);
    assert_eq!(accepted.raw, raw());
}

#[test]
fn jws_checks_issuer_audience_and_expiry() {
    let judge = |claims: ChirpClaims, validate_aud: bool| {
        accept_jws_claims(&config(), claims, raw(), validate_aud, NOW)
    };
    assert!(judge(human(), true).is_ok());
    assert!(matches!(
        judge(ChirpClaims { iss: "x".to_owned(), ..human() }, false),
        Err(ChirpAuthError::ClaimMismatch)
    ));
    assert!(matches!(
        judge(ChirpClaims { aud: one("x"), ..human() }, true),
        Err(ChirpAuthError::ClaimMismatch)
    ));
    assert!(judge(ChirpClaims { aud: one("x"), ..human() }, false).is_ok());
    assert!(matches!(
        judge(ChirpClaims { exp: NOW, ..human() }, false),
        Err(ChirpAuthError::Expired)
    ));
}

#[test]
fn jws_needs_an_object_and_the_standard_claims() {
    let judge = |raw: Option<serde_json::Map<String, serde_json::Value>>,
                 claims: Option<ChirpClaims>| judge_jws(&config(), raw, claims, true, NOW);
    assert!(judge(Some(raw()), Some(human())).is_ok());
    assert!(matches!(judge(None, Some(human())), Err(ChirpAuthError::MalformedToken)));
    assert!(matches!(judge(Some(raw()), None), Err(ChirpAuthError::MalformedToken)));
}

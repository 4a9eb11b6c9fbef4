use chirp_auth_client::jwt::{assemble_token, decode_token, jwt_parts};
use chirp_auth_client::keys::{find_key, select_key, verify_rsa_signature, Jwk, Jwks};
use chirp_auth_client::text::{
    char_is_control, char_is_whitespace, same_text, same_text_ignoring_ascii_case,
    strip_trailing_char, trim_str,
};
use chirp_auth_client::ChirpAuthError;

#[test]
fn token_is_split_at_its_dots() {
    let parts = jwt_parts("aé.bb.c").unwrap();
    assert_eq!(parts.header, "aé");
    assert_eq!(parts.claims, "bb");
    assert_eq!(parts.signature, "c");
    assert_eq!(parts.signing_input, "aé.bb");
    assert_eq!(format!("{}.{}", parts.signing_input, parts.signature), "aé.bb.c");
}

#[test]
fn token_needs_three_segments() {
    for token in ["", ".", "..", "a", "a.b", "a.b.", "a..c", ".b.c", "a.b.c.", "a.b.c.d", "...."] {
        assert!(matches!(jwt_parts(token), Err(ChirpAuthError::MalformedToken)), "{token}");
    }
}

#[test]
fn segments_are_decoded() {
    let token = decode_token("eyJhIjoxfQ.AAH_-g.YQ").unwrap();
    assert_eq!(token.header, br#"{"a":1}"#);
    assert_eq!(token.claims, [0, 1, 255, 250]);
    assert_eq!(token.signature, b"a");
    assert_eq!(token.signing_input, "eyJhIjoxfQ.AAH_-g");
    // Trailing bits that stand for nothing are refused.
    assert!(matches!(decode_token("YQ.YR.YQ"), Err(ChirpAuthError::MalformedToken)));
}

#[test]
fn one_bad_segment_spoils_the_token() {
    let good = || Some(vec![1u8]);
    assert!(assemble_token("x", good(), good(), good()).is_ok());
    assert!(assemble_token("x", None, good(), good()).is_err());
    assert!(assemble_token("x", good(), None, good()).is_err());
    assert!(assemble_token("x", good(), good(), None).is_err());
}

fn key(kid: &str, kty: &str, alg: Option<&str>, e: &str) -> Jwk {
    Jwk {
        kty: kty.to_owned(),
        kid: kid.to_owned(),
        alg: alg.map(str::to_owned),
        n: "AQAB".to_owned(),
        e: e.to_owned(),
    }
}

#[test]
fn first_rsa_key_with_the_id_is_found() {
    let jwks = Jwks {
        keys: vec![
            key("k", "EC", None, "1"),
            key("j", "RSA", None, "2"),
            key("k", "RSA", None, "3"),
            key("k", "RSA", None, "4"),
        ],
    };
    assert_eq!(find_key(&jwks, "k").map(|k| k.e.as_str()), Some("3"));
    assert_eq!(find_key(&jwks, "j").map(|k| k.e.as_str()), Some("2"));
    assert!(find_key(&jwks, "K").is_none());
    assert!(find_key(&Jwks { keys: vec![] }, "k").is_none());
}

#[test]
fn key_must_be_usable_for_rs256() {
    let one = |alg: Option<&str>| Jwks { keys: vec![key("k", "RSA", alg, "AQAB")] };
    assert!(select_key(&one(None), "k").is_ok());
    assert!(select_key(&one(Some("RS256")), "k").is_ok());
    assert!(matches!(
        select_key(&one(Some("rs256")), "k"),
        Err(ChirpAuthError::UnsupportedAlgorithm)
    ));
    assert!(matches!(select_key(&one(None), "x"), Err(ChirpAuthError::NoMatchingKey)));
}

#[test]
fn short_key_verifies_nothing() {
    assert!(matches!(
        verify_rsa_signature(&key("k", "RSA", None, "AQAB"), b"message", b"signature"),
        Err(ChirpAuthError::SignatureInvalid)
    ));
}

#[test]
fn character_classes_are_those_of_unicode() {
    for c in '\0'..=char::MAX {
        assert_eq!(char_is_whitespace(c), c.is_whitespace(), "{c:?}");
        assert_eq!(char_is_control(c), c.is_control(), "{c:?}");
    }
}

#[test]
fn trimming_agrees_with_the_standard_library() {
    for s in ["", " ", "a", " a", "a ", "\u{2003}a b\u{85}", "\u{200b}a", "\t\n\r x \u{3000}", "é "] {
        assert_eq!(trim_str(s), s.trim());
        assert_eq!(trim_str(trim_str(s)), trim_str(s));
        assert_eq!(strip_trailing_char(s, ' '), s.trim_end_matches(' '));
    }
    assert_eq!(strip_trailing_char("/a//", '/'), "/a");
    assert_eq!(strip_trailing_char("//", '/'), "");
}

#[test]
fn texts_are_compared_by_their_characters() {
    assert!(same_text("", ""));
    assert!(same_text("äb", "äb"));
    assert!(!same_text("ab", "abc"));
    assert!(!same_text("ab", "aB"));
    assert!(same_text_ignoring_ascii_case("aZ@[", "Az@["));
    assert!(!same_text_ignoring_ascii_case("@", "`"));
    assert!(!same_text_ignoring_ascii_case("Ä", "ä"));
}

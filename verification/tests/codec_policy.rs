//! Tests of the decimal codec, the token extractor, and the policy client
//! logic: request framing, decision parsing, and the verdict taxonomy.

use sessions::codec::{parse_u32, u32_to_dec};
use sessions::policy::{
    decide, parse_decision, AuthzError, OpaInput, PolicyOutcome, PolicyParameters,
    SessionParameters,
};
use sessions::token::extract_bearer;

#[test]
fn parse_u32_plain() {
    assert_eq!(parse_u32(b"12345"), Some(12345));
    assert_eq!(parse_u32(b"0"), Some(0));
    assert_eq!(parse_u32(b"4294967295"), Some(u32::MAX));
}

#[test]
fn parse_u32_plus_sign_and_leading_zeros() {
    assert_eq!(parse_u32(b"+7"), Some(7));
    assert_eq!(parse_u32(b"007"), Some(7));
    assert_eq!(parse_u32(b"+0042"), Some(42));
}

#[test]
fn parse_u32_rejects_junk() {
    assert_eq!(parse_u32(b""), None);
    assert_eq!(parse_u32(b"+"), None);
    assert_eq!(parse_u32(b"abc"), None);
    assert_eq!(parse_u32(b"12a"), None);
    assert_eq!(parse_u32(b"-1"), None);
    assert_eq!(parse_u32(b" 1"), None);
}

#[test]
fn parse_u32_rejects_overflow() {
    assert_eq!(parse_u32(b"4294967296"), None);
    assert_eq!(parse_u32(b"99999999999999999999"), None);
}

#[test]
fn u32_to_dec_renders() {
    assert_eq!(u32_to_dec(0), b"0".to_vec());
    assert_eq!(u32_to_dec(7), b"7".to_vec());
    assert_eq!(u32_to_dec(12345), b"12345".to_vec());
    assert_eq!(u32_to_dec(u32::MAX), b"4294967295".to_vec());
}

#[test]
fn dec_round_trip_concrete() {
    for n in [0u32, 1, 9, 10, 99, 100, 12345, u32::MAX] {
        assert_eq!(parse_u32(&u32_to_dec(n)), Some(n));
    }
}

#[test]
fn absent_header_yields_no_token() {
    assert_eq!(extract_bearer(None), None);
}

#[test]
fn bearer_header_yields_token() {
    assert_eq!(
        extract_bearer(Some(b"Bearer abc.DEF-123_~+/==")),
        Some(b"abc.DEF-123_~+/==".to_vec())
    );
}

#[test]
fn bearer_scheme_is_case_insensitive() {
    assert_eq!(extract_bearer(Some(b"bearer tok")), Some(b"tok".to_vec()));
    assert_eq!(extract_bearer(Some(b"BEARER tok")), Some(b"tok".to_vec()));
    assert_eq!(extract_bearer(Some(b"BeArEr tok")), Some(b"tok".to_vec()));
}

#[test]
fn non_bearer_scheme_yields_no_token() {
    assert_eq!(extract_bearer(Some(b"Basic dXNlcjpwdw==")), None);
    assert_eq!(extract_bearer(Some(b"Digest tok")), None);
}

#[test]
fn malformed_bearer_degrades_to_no_token() {
    assert_eq!(extract_bearer(Some(b"")), None);
    assert_eq!(extract_bearer(Some(b"Bearer")), None);
    assert_eq!(extract_bearer(Some(b"Bearer ")), None);
    assert_eq!(extract_bearer(Some(b"Bearer  tok")), None);
    assert_eq!(extract_bearer(Some(b"Bearer =")), None);
    assert_eq!(extract_bearer(Some(b"Bearer a=b")), None);
    assert_eq!(extract_bearer(Some(b"Bearer a b")), None);
    assert_eq!(extract_bearer(Some(b"Bearer t\x7fk")), None);
}

#[test]
fn trailing_padding_is_accepted_only_at_the_end() {
    assert_eq!(extract_bearer(Some(b"Bearer a==")), Some(b"a==".to_vec()));
    assert_eq!(extract_bearer(Some(b"Bearer ==a")), None);
}

#[test]
fn request_body_with_token() {
    let input = OpaInput::new(
        Some(b"tok".to_vec()),
        SessionParameters { proposal: 12345, visit: 3 },
    );
    assert_eq!(
        input.body(),
        br#"{"token":"tok","parameters":{"proposal":12345,"visit":3}}"#.to_vec()
    );
}

#[test]
fn request_body_without_token_is_explicit_null() {
    let input = OpaInput::new(None, SessionParameters { proposal: 1, visit: 99 });
    assert_eq!(
        input.body(),
        br#"{"token":null,"parameters":{"proposal":1,"visit":99}}"#.to_vec()
    );
}

#[test]
fn session_parameters_render() {
    let params = SessionParameters { proposal: 0, visit: 4294967295 };
    assert_eq!(params.to_json(), br#"{"proposal":0,"visit":4294967295}"#.to_vec());
}

#[test]
fn parse_decision_plain() {
    assert_eq!(parse_decision(br#"{"allow":true}"#).map(|d| d.allow), Some(true));
    assert_eq!(parse_decision(br#"{"allow":false}"#).map(|d| d.allow), Some(false));
}

#[test]
fn parse_decision_tolerates_whitespace() {
    assert_eq!(
        parse_decision(b" \t{ \"allow\" :\r\n true } \n").map(|d| d.allow),
        Some(true)
    );
}

#[test]
fn parse_decision_rejects_other_shapes() {
    assert_eq!(parse_decision(b""), None);
    assert_eq!(parse_decision(b"{}"), None);
    assert_eq!(parse_decision(br#"{"allow":1}"#), None);
    assert_eq!(parse_decision(br#"{"allow":true,"why":"x"}"#), None);
    assert_eq!(parse_decision(br#"{"allow" true}"#), None);
    assert_eq!(parse_decision(br#"{"allow":true"#), None);
    assert_eq!(parse_decision(br#"{"allow":truex}"#), None);
    assert_eq!(parse_decision(br#"{"allow":true}x"#), None);
    assert_eq!(parse_decision(b"allow"), None);
}

#[test]
fn affirmative_verdict_permits() {
    let outcome = PolicyOutcome::Response(br#"{"allow":true}"#.to_vec());
    assert_eq!(decide(&outcome), Ok(()));
}

#[test]
fn explicit_denial_is_denied() {
    let outcome = PolicyOutcome::Response(br#"{"allow":false}"#.to_vec());
    assert_eq!(decide(&outcome), Err(AuthzError::Denied));
}

#[test]
fn transport_failure_is_unreachable_not_denied() {
    let failed = decide(&PolicyOutcome::TransportFailure);
    let denied = decide(&PolicyOutcome::Response(br#"{"allow":false}"#.to_vec()));
    assert_eq!(failed, Err(AuthzError::Unreachable));
    assert_ne!(failed, denied);
}

#[test]
fn malformed_verdict_is_unreachable_not_denied() {
    let outcome = PolicyOutcome::Response(b"<html>bad gateway</html>".to_vec());
    assert_eq!(decide(&outcome), Err(AuthzError::Unreachable));
}

use tokenvault::codec::{sign_claim, verify_at, TokenClaim};
use tokenvault::errors::{TokenError, TokenMetadataError};
use tokenvault::tokenization::Token;
use tokenvault::tokens::TokenMetadata;
use tokenvault::utils::{latency_text, to_base64, u64_to_decimal};

const FAR_FUTURE: u64 = 4102444800; // 2100-01-01

#[test]
fn round_trip_valid_claims() {
    let token = sign_claim("host-1", FAR_FUTURE, "top-secret");
    let claim = verify_at(&token, "top-secret", 1700000000).expect("round trip must verify");
    assert_eq!(claim.id, "host-1");
    assert_eq!(claim.exp, FAR_FUTURE);
}

#[test]
fn wrong_secret_is_invalid_never_expired() {
    let token = sign_claim("host-1", FAR_FUTURE, "secret-a");
    // Even at a clock far past any expiry, the wrong secret reports an
    // invalid credential, not an expired one.
    match verify_at(&token, "secret-b", u64::MAX) {
        Err(TokenError::TokenDecodingError(s)) => assert_eq!(s, token),
        other => panic!("expected a decoding failure, got {:?}", other),
    }
}

#[test]
fn expired_token_reports_expired() {
    let token = sign_claim("host-1", 100, "top-secret");
    match verify_at(&token, "top-secret", 200) {
        Err(TokenError::TokenExpired(s)) => assert_eq!(s, token),
        other => panic!("expected an expiry failure, got {:?}", other),
    }
}

#[test]
fn expiry_boundary_is_exclusive() {
    let token = sign_claim("host-1", 500, "top-secret");
    // At the expiration instant itself the token is already expired.
    assert!(matches!(
        verify_at(&token, "top-secret", 500),
        Err(TokenError::TokenExpired(_))
    ));
    // One second earlier it is still accepted.
    assert!(verify_at(&token, "top-secret", 499).is_ok());
}

#[test]
fn tampered_token_is_invalid() {
    let token = sign_claim("host-1", FAR_FUTURE, "top-secret");
    let mut tampered = token.clone();
    tampered.push('x');
    assert!(matches!(
        verify_at(&tampered, "top-secret", 0),
        Err(TokenError::TokenDecodingError(_))
    ));
}

#[test]
fn garbage_token_is_invalid() {
    assert!(matches!(
        verify_at("not-a-token", "top-secret", 0),
        Err(TokenError::TokenDecodingError(_))
    ));
}

#[test]
fn metadata_generate_then_parse() {
    let record = TokenMetadata { id: "agent-7".to_string(), exp: FAR_FUTURE, token: None };
    let token = record.generate("service-secret").expect("signing must succeed");
    let parsed = TokenMetadata::parse(&token, "service-secret").expect("parse must succeed");
    assert_eq!(parsed.id, "agent-7");
    assert_eq!(parsed.exp, FAR_FUTURE);
    assert_eq!(parsed.token, None);
}

#[test]
fn metadata_parse_distinguishes_expired() {
    let record = TokenMetadata { id: "agent-7".to_string(), exp: 1, token: None };
    let token = record.generate("service-secret").expect("signing must succeed");
    assert!(matches!(
        TokenMetadata::parse(&token, "service-secret"),
        Err(TokenMetadataError::TokenExpired(_))
    ));
    assert!(matches!(
        TokenMetadata::parse(&token, "other-secret"),
        Err(TokenMetadataError::TokenDecodingError(_))
    ));
}

#[test]
fn legacy_token_create_then_parse() {
    let t = Token::new("agent-9".to_string(), 2);
    let signed = t.create("legacy-secret").expect("signing must succeed");
    let claim: TokenClaim = Token::parse(&signed, "legacy-secret").expect("parse must succeed");
    assert_eq!(claim.id, "agent-9");
    assert!(claim.exp > 0);
}

#[test]
fn metadata_update_refreshes_expiry_and_cache() {
    let mut record = TokenMetadata { id: "agent-3".to_string(), exp: 0, token: None };
    record.update(2, FAR_FUTURE, "service-secret");
    assert_eq!(record.exp, FAR_FUTURE + 2 * 3600);
    let cached = record.token.clone().expect("update must cache a token");
    let parsed = TokenMetadata::parse(&cached, "service-secret").expect("cache must verify");
    assert_eq!(parsed.id, "agent-3");
    assert_eq!(parsed.exp, record.exp);
}

#[test]
fn signed_token_interops_with_plain_secret_key() {
    // The secret re-encoding quirk must leave the effective HMAC key equal to
    // the textual secret's bytes: a token the library signs verifies under
    // the plain secret with the signing crate used directly.
    let token = sign_claim("host-1", FAR_FUTURE, "top-secret");
    let key = jsonwebtoken::DecodingKey::from_secret("top-secret".as_bytes());
    let validation = jsonwebtoken::Validation::new(jsonwebtoken::Algorithm::HS256);
    let data = jsonwebtoken::decode::<serde_json::Value>(&token, &key, &validation)
        .expect("token must verify under the plain secret bytes");
    assert_eq!(data.claims.get("id").and_then(|v| v.as_str()), Some("host-1"));
    assert_eq!(data.claims.get("exp").and_then(|v| v.as_u64()), Some(FAR_FUTURE));
}

#[test]
fn base64_of_known_values() {
    assert_eq!(to_base64("Man"), "TWFu");
    assert_eq!(to_base64("M"), "TQ==");
    assert_eq!(to_base64(""), "");
    assert_eq!(to_base64("top-secret"), "dG9wLXNlY3JldA==");
}

#[test]
fn decimal_rendering_exact() {
    assert_eq!(u64_to_decimal(0), "0");
    assert_eq!(u64_to_decimal(7), "7");
    assert_eq!(u64_to_decimal(10), "10");
    assert_eq!(u64_to_decimal(1234), "1234");
    assert_eq!(u64_to_decimal(u64::MAX), "18446744073709551615");
    assert_eq!(latency_text(0), "0ms");
    assert_eq!(latency_text(250), "250ms");
}

#[test]
fn generate_is_deterministic() {
    let record = TokenMetadata { id: "agent-7".to_string(), exp: FAR_FUTURE, token: None };
    let first = record.generate("service-secret").expect("signing must succeed");
    let second = record.generate("service-secret").expect("signing must succeed");
    assert_eq!(first, second);
    assert_eq!(first, sign_claim("agent-7", FAR_FUTURE, "service-secret"));
}

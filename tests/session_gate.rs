use std::collections::BTreeMap;

use todox_auth::carrier::{attach, extract};
use todox_auth::codec::{claims_from_payload, SessionClaims, TokenCodec, VerifyError};
use todox_auth::gate::{check_request, decide, gate_token, login_redirect, Access};

fn codec() -> TokenCodec {
    TokenCodec::new(b"SECRET".to_vec())
}

fn claims(user_id: &str) -> SessionClaims {
    SessionClaims { user_id: user_id.to_string() }
}

fn cookie_lines(lines: &[&str]) -> Vec<Vec<u8>> {
    lines.iter().map(|l| l.as_bytes().to_vec()).collect()
}

fn sign_with(alg: jsonwebtoken::Algorithm, pairs: &[(&str, &str)], secret: &[u8]) -> String {
    let payload: BTreeMap<&str, &str> = pairs.iter().cloned().collect();
    jsonwebtoken::encode(
        &jsonwebtoken::Header::new(alg),
        &payload,
        &jsonwebtoken::EncodingKey::from_secret(secret),
    )
    .unwrap()
}

#[test]
fn issue_then_verify_gives_claims_back() {
    let c = codec();
    for id in ["42", "", "alice@example.com", "ünïcödé \"quoted\" ; = , "] {
        let token = c.issue(&claims(id));
        let back = c.verify(&token).expect("a freshly issued token verifies");
        assert_eq!(back.user_id, id);
    }
}

#[test]
fn issue_is_deterministic_and_signed() {
    let c = codec();
    let a = c.issue(&claims("42"));
    let b = c.issue(&claims("42"));
    assert_eq!(a, b);
    assert_ne!(a, "42");
    assert_eq!(a.split('.').count(), 3);
    assert_ne!(a, c.issue(&claims("43")));
}

#[test]
fn issued_token_matches_hs256_encoding() {
    let expected = sign_with(jsonwebtoken::Algorithm::HS256, &[("user_id", "42")], b"SECRET");
    assert_eq!(codec().issue(&claims("42")), expected);
}

#[test]
fn flipping_any_bit_of_a_token_fails_verification() {
    let c = codec();
    let token = c.issue(&claims("42"));
    let bytes = token.as_bytes();
    for i in 0..bytes.len() {
        for bit in 0..8 {
            let mut changed = bytes.to_vec();
            changed[i] ^= 1 << bit;
            if let Ok(s) = String::from_utf8(changed) {
                assert!(c.verify(&s).is_err(), "byte {} bit {} still verifies", i, bit);
            }
        }
    }
}

#[test]
fn other_key_is_signature_mismatch() {
    let token = codec().issue(&claims("42"));
    let other = TokenCodec::new(b"OTHER".to_vec());
    assert_eq!(other.verify(&token).unwrap_err(), VerifyError::SignatureMismatch);
}

#[test]
fn garbage_is_malformed() {
    let c = codec();
    assert_eq!(c.verify("garbage").unwrap_err(), VerifyError::Malformed);
    assert_eq!(c.verify("").unwrap_err(), VerifyError::Malformed);
    assert_eq!(c.verify("a.b.c.d").unwrap_err(), VerifyError::Malformed);
}

#[test]
fn unsigned_algorithm_is_refused() {
    // {"alg":"none","typ":"JWT"} . {"user_id":"42"} . (no signature)
    let token = "eyJhbGciOiJub25lIiwidHlwIjoiSldUIn0.eyJ1c2VyX2lkIjoiNDIifQ.";
    assert_eq!(codec().verify(token).unwrap_err(), VerifyError::Malformed);
}

#[test]
fn other_algorithm_is_refused() {
    let token = sign_with(jsonwebtoken::Algorithm::HS512, &[("user_id", "42")], b"SECRET");
    assert!(codec().verify(&token).is_err());
}

#[test]
fn payload_without_user_id_is_malformed() {
    let token = sign_with(jsonwebtoken::Algorithm::HS256, &[("sub", "42")], b"SECRET");
    assert_eq!(codec().verify(&token).unwrap_err(), VerifyError::Malformed);
}

#[test]
fn payload_with_extra_claims_verifies() {
    let token = sign_with(
        jsonwebtoken::Algorithm::HS256,
        &[("role", "admin"), ("user_id", "7")],
        b"SECRET",
    );
    assert_eq!(codec().verify(&token).unwrap().user_id, "7");
}

#[test]
fn claims_from_payload_reads_user_id() {
    let entries = vec![
        ("a".to_string(), "1".to_string()),
        ("user_id".to_string(), "42".to_string()),
        ("user_id".to_string(), "43".to_string()),
    ];
    assert_eq!(claims_from_payload(&entries).unwrap().user_id, "42");
    let none = vec![("userid".to_string(), "42".to_string())];
    assert_eq!(claims_from_payload(&none).unwrap_err(), VerifyError::Malformed);
    assert_eq!(claims_from_payload(&Vec::new()).unwrap_err(), VerifyError::Malformed);
}

#[test]
fn extract_without_cookie_header_is_none() {
    assert_eq!(extract(&Vec::new()), None);
}

#[test]
fn extract_without_authentication_cookie_is_none() {
    assert_eq!(extract(&cookie_lines(&["lang=en-US; SID=31d4"])), None);
    assert_eq!(extract(&cookie_lines(&["authentication"])), None);
    assert_eq!(extract(&cookie_lines(&[""])), None);
}

#[test]
fn extract_finds_authentication_cookie() {
    assert_eq!(extract(&cookie_lines(&["authentication=abc"])), Some("abc".to_string()));
    assert_eq!(
        extract(&cookie_lines(&["lang=en; authentication = x.y.z ; other=1"])),
        Some("x.y.z".to_string())
    );
    assert_eq!(
        extract(&cookie_lines(&["lang=en", "authentication=second-line"])),
        Some("second-line".to_string())
    );
    assert_eq!(
        extract(&cookie_lines(&["authentication=first; authentication=second"])),
        Some("first".to_string())
    );
}

#[test]
fn attach_writes_authentication_cookie() {
    assert_eq!(attach("a.b.c"), "authentication=a.b.c; Path=/; HttpOnly; SameSite=Lax");
}

#[test]
fn attached_token_is_extracted_back() {
    let token = codec().issue(&claims("42"));
    let set_cookie = attach(&token);
    let pair = set_cookie.split(';').next().unwrap();
    assert_eq!(extract(&cookie_lines(&[pair])), Some(token));
}

#[test]
fn decide_allows_only_verified_tokens() {
    assert_eq!(decide(Some(Ok(claims("42")))), Access::Allowed);
    assert_eq!(decide(Some(Err(VerifyError::Malformed))), Access::Denied);
    assert_eq!(decide(Some(Err(VerifyError::SignatureMismatch))), Access::Denied);
    assert_eq!(decide(None), Access::Denied);
}

#[test]
fn gate_token_decisions() {
    let c = codec();
    let token = c.issue(&claims("42"));
    assert_eq!(gate_token(&c, Some(&token)), Access::Allowed);
    assert_eq!(gate_token(&c, Some("garbage")), Access::Denied);
    assert_eq!(gate_token(&c, None), Access::Denied);
}

#[test]
fn request_without_cookie_is_denied() {
    assert_eq!(check_request(&codec(), &Vec::new()), Access::Denied);
    assert_eq!(check_request(&codec(), &cookie_lines(&["lang=en-US"])), Access::Denied);
}

#[test]
fn request_with_unsigned_cookie_is_denied() {
    let c = codec();
    let forged = TokenCodec::new(b"NOT-THE-SECRET".to_vec()).issue(&claims("42"));
    let line = format!("authentication={}", forged);
    assert_eq!(check_request(&c, &cookie_lines(&[&line])), Access::Denied);
    assert_eq!(check_request(&c, &cookie_lines(&["authentication=garbage"])), Access::Denied);
}

#[test]
fn request_with_issued_token_is_allowed() {
    let c = codec();
    let token = c.issue(&claims("42"));
    let line = format!("theme=dark; authentication={}", token);
    assert_eq!(check_request(&c, &cookie_lines(&[&line])), Access::Allowed);
}

#[test]
fn scenario_no_cookie_then_valid_cookie() {
    let c = codec();
    assert_eq!(check_request(&c, &Vec::new()), Access::Denied);
    let redirect = login_redirect();
    assert_eq!(redirect.status, 307);
    assert_eq!(redirect.location, "/auth/login");
    let line = format!("authentication={}", c.issue(&claims("42")));
    assert_eq!(check_request(&c, &cookie_lines(&[&line])), Access::Allowed);
}

#[test]
fn scenario_garbage_cookie_redirects_like_no_cookie() {
    let c = codec();
    let garbage = check_request(&c, &cookie_lines(&["authentication=garbage"]));
    let none = check_request(&c, &Vec::new());
    assert_eq!(garbage, Access::Denied);
    assert_eq!(garbage, none);
}

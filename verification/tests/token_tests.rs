use bug_tracker::reply::Body;
use bug_tracker::token::{caller_from_header, create_token, validate_token};

fn base64url(bytes: &[u8]) -> String {
    const ALPHABET: &[u8] = b"ABCDEFGHIJKLMNOPQRSTUVWXYZabcdefghijklmnopqrstuvwxyz0123456789-_";
    let mut out = String::new();
    for chunk in bytes.chunks(3) {
        let b = [chunk[0], *chunk.get(1).unwrap_or(&0), *chunk.get(2).unwrap_or(&0)];
        let n = ((b[0] as u32) << 16) | ((b[1] as u32) << 8) | b[2] as u32;
        for i in 0..=chunk.len() {
            out.push(ALPHABET[((n >> (18 - 6 * i)) & 63) as usize] as char);
        }
    }
    out
}

const ID: u128 = 0x550e8400e29b41d4a716446655440000;

#[test]
fn an_issued_token_carries_its_claims_in_order() {
    let (issued_at, token) = create_token(ID, "admin");
    let token = token.unwrap();
    let parts: Vec<&str> = token.split('.').collect();
    assert_eq!(parts.len(), 3);
    assert_eq!(parts[0], base64url(br#"{"typ":"JWT","alg":"HS256"}"#));
    let payload = format!(
        r#"{{"sub":"550e8400-e29b-41d4-a716-446655440000","role":"admin","exp":{}}}"#,
        issued_at + 3600
    );
    assert_eq!(parts[1], base64url(payload.as_bytes()));
}

#[test]
fn an_issued_token_is_accepted_as_its_holder() {
    let (_, token) = create_token(ID, "developer");
    let token = token.unwrap();
    assert!(validate_token(&token));
    let header = format!("Bearer {}", token);
    let caller = caller_from_header(Some(&header)).unwrap();
    assert_eq!(caller.user_id, "550e8400-e29b-41d4-a716-446655440000");
    assert_eq!(caller.role, "developer");
}

#[test]
fn tokens_differ_by_account_and_role() {
    let (t0, a) = create_token(ID, "admin");
    let (t1, b) = create_token(ID + 1, "admin");
    let (t2, c) = create_token(ID, "staff");
    let (t3, d) = create_token(ID, "admin");
    if t0 == t1 && t0 == t2 && t0 == t3 {
        assert_ne!(a, b);
        assert_ne!(a, c);
        assert_eq!(a, d);
    }
}

fn refused(header: Option<&str>) {
    let r = caller_from_header(header).unwrap_err();
    assert_eq!(r.status, 401);
    assert!(matches!(r.body, Body::ErrorText(ref t) if t == "Invalid token"));
}

#[test]
fn bad_headers_are_refused() {
    let (_, token) = create_token(ID, "admin");
    let token = token.unwrap();
    refused(None);
    refused(Some(&token));
    refused(Some(&format!("bearer {}", token)));
    refused(Some("Bearer not.a.token"));
    let mut tampered = token.clone();
    tampered.push('x');
    refused(Some(&format!("Bearer {}", tampered)));
    assert!(!validate_token(&tampered));
}

#[test]
fn a_token_under_another_secret_is_refused() {
    let mut claims = serde_json::Map::new();
    claims.insert("sub".to_string(), "u".into());
    claims.insert("role".to_string(), "admin".into());
    claims.insert("exp".to_string(), 4_000_000_000u64.into());
    let key = jsonwebtoken::EncodingKey::from_secret(b"another");
    let token = jsonwebtoken::encode(&jsonwebtoken::Header::default(), &claims, &key).unwrap();
    refused(Some(&format!("Bearer {}", token)));
    assert!(!validate_token(&token));
}

#[test]
fn an_expired_token_is_refused() {
    let mut claims = serde_json::Map::new();
    claims.insert("sub".to_string(), "u".into());
    claims.insert("role".to_string(), "admin".into());
    claims.insert("exp".to_string(), 1_000u64.into());
    let key = jsonwebtoken::EncodingKey::from_secret(b"secretkey");
    let token = jsonwebtoken::encode(&jsonwebtoken::Header::default(), &claims, &key).unwrap();
    assert!(!validate_token(&token));
    refused(Some(&format!("Bearer {}", token)));
}

#[test]
fn a_token_missing_a_claim_is_refused() {
    let mut claims = serde_json::Map::new();
    claims.insert("sub".to_string(), "u".into());
    claims.insert("exp".to_string(), 4_000_000_000u64.into());
    let key = jsonwebtoken::EncodingKey::from_secret(b"secretkey");
    let token = jsonwebtoken::encode(&jsonwebtoken::Header::default(), &claims, &key).unwrap();
    assert!(!validate_token(&token));
}

use web_api::jwt::{
    checked_claims, checked_claims_at, generate, issue_at, verify, Claims, MAX_DELTA_MINUTES, MAX_UTC_TS, MIN_UTC_TS,
};

#[test]
fn generated_token_verifies() {
    let t = generate("alice1".to_string(), "issuer".to_string(), 10, "jti-1".to_string(), "key".to_string()).unwrap();
    assert_eq!(t.split('.').count(), 3);
    let (sub, jti) = verify(t, "issuer".to_string(), "key".to_string()).unwrap();
    assert_eq!(sub, "alice1");
    assert_eq!(jti, "jti-1");
}

#[test]
fn wrong_key_or_issuer_fails() {
    let t = generate("alice1".to_string(), "issuer".to_string(), 10, "j".to_string(), "key".to_string()).unwrap();
    assert!(verify(t.clone(), "issuer".to_string(), "other".to_string()).is_err());
    assert!(verify(t, "someone".to_string(), "key".to_string()).is_err());
    assert!(verify("garbage".to_string(), "issuer".to_string(), "key".to_string()).is_err());
}

#[test]
fn expired_token_fails() {
    // Expired ten minutes ago, beyond the 30 seconds of leeway.
    let t = generate("alice1".to_string(), "issuer".to_string(), -10, "j".to_string(), "key".to_string()).unwrap();
    assert!(verify(t, "issuer".to_string(), "key".to_string()).is_err());
}

#[test]
fn expiry_out_of_range() {
    let r = generate("a".to_string(), "i".to_string(), MAX_DELTA_MINUTES, "j".to_string(), "k".to_string());
    assert_eq!(r, Err("json web token timestamp overflow".to_string()));
}

fn base64url_decode(s: &str) -> Vec<u8> {
    let alphabet = b"ABCDEFGHIJKLMNOPQRSTUVWXYZabcdefghijklmnopqrstuvwxyz0123456789-_";
    let mut bits: u32 = 0;
    let mut n: u32 = 0;
    let mut out = Vec::new();
    for c in s.bytes() {
        let v = alphabet.iter().position(|&a| a == c).unwrap() as u32;
        bits = (bits << 6) | v;
        n += 6;
        if n >= 8 {
            n -= 8;
            out.push((bits >> n) as u8);
            bits &= (1 << n) - 1;
        }
    }
    out
}

#[test]
fn payload_lists_claims_in_order() {
    let t = generate("alice1".to_string(), "issuer".to_string(), 10, "jti-1".to_string(), "key".to_string()).unwrap();
    let payload = String::from_utf8(base64url_decode(t.split('.').nth(1).unwrap())).unwrap();
    assert!(payload.starts_with("{\"sub\":\"alice1\",\"iss\":\"issuer\",\"iat\":"));
    assert!(payload.ends_with(",\"jti\":\"jti-1\"}"));
    let value: serde_json::Value = serde_json::from_str(&payload).unwrap();
    let iat = value.get("iat").unwrap().as_i64().unwrap();
    let exp = value.get("exp").unwrap().as_i64().unwrap();
    assert_eq!(exp - iat, 600);
}

fn signed(claims: serde_json::Map<String, serde_json::Value>) -> String {
    jsonwebtoken::encode(
        &jsonwebtoken::Header::default(),
        &serde_json::Value::Object(claims),
        &jsonwebtoken::EncodingKey::from_secret(b"key"),
    )
    .unwrap()
}

#[test]
fn claims_must_be_complete() {
    let mut claims = serde_json::Map::new();
    claims.insert("sub".to_string(), serde_json::Value::from("alice1"));
    claims.insert("iss".to_string(), serde_json::Value::from("issuer"));
    claims.insert("exp".to_string(), serde_json::Value::from(4_000_000_000i64));
    claims.insert("jti".to_string(), serde_json::Value::from("j"));
    let without_iat = signed(claims.clone());
    assert_eq!(verify(without_iat, "issuer".to_string(), "key".to_string()), Err("missing field `iat`".to_string()));
    claims.insert("iat".to_string(), serde_json::Value::from("yesterday"));
    let text_iat = signed(claims.clone());
    assert!(verify(text_iat, "issuer".to_string(), "key".to_string()).is_err());
    claims.insert("iat".to_string(), serde_json::Value::from(1_700_000_000i64));
    let complete = signed(claims.clone());
    assert_eq!(
        verify(complete, "issuer".to_string(), "key".to_string()),
        Ok(("alice1".to_string(), "j".to_string()))
    );
    claims.remove("jti");
    let without_jti = signed(claims);
    assert_eq!(verify(without_jti, "issuer".to_string(), "key".to_string()), Err("missing field `jti`".to_string()));
}

fn claims() -> Claims {
    Claims {
        sub: Some("alice1".to_string()),
        iss: Some("issuer".to_string()),
        iat: Some(1),
        exp: Some(2),
        jti: Some("j".to_string()),
    }
}

#[test]
fn checked_claims_names_the_first_missing_claim() {
    assert_eq!(checked_claims(claims()), Ok(("alice1".to_string(), "j".to_string())));
    let mut c = claims();
    c.iss = None;
    c.exp = None;
    assert_eq!(checked_claims(c), Err("missing field `iss`".to_string()));
    let mut c = claims();
    c.exp = None;
    assert_eq!(checked_claims(c), Err("missing field `exp`".to_string()));
    let mut c = claims();
    c.sub = None;
    c.jti = None;
    assert_eq!(checked_claims(c), Err("missing field `sub`".to_string()));
}

#[test]
fn utc_range_is_chronos() {
    assert_eq!(chrono::DateTime::<chrono::Utc>::MIN_UTC.timestamp(), MIN_UTC_TS);
    assert_eq!(chrono::DateTime::<chrono::Utc>::MAX_UTC.timestamp(), MAX_UTC_TS);
}

fn issue(now: i64, minutes: i64) -> Result<String, String> {
    issue_at(now, "alice1".to_string(), "issuer".to_string(), minutes, "j".to_string(), "key".to_string())
}

#[test]
fn issue_at_fails_only_out_of_range() {
    let overflow = Err("json web token timestamp overflow".to_string());
    assert_eq!(issue(MAX_UTC_TS, 1), overflow);
    assert!(issue(MAX_UTC_TS - 60, 1).is_ok());
    assert!(issue(MAX_UTC_TS, 0).is_ok());
    assert_eq!(issue(MIN_UTC_TS - 1, 0), overflow);
    assert!(issue(MIN_UTC_TS, 0).is_ok());
    assert_eq!(issue(MIN_UTC_TS, -1), overflow);
    let t = issue(1_700_000_000, 10).unwrap();
    let payload = String::from_utf8(base64url_decode(t.split('.').nth(1).unwrap())).unwrap();
    assert_eq!(
        payload,
        "{\"sub\":\"alice1\",\"iss\":\"issuer\",\"iat\":1700000000,\"exp\":1700000600,\"jti\":\"j\"}"
    );
}

#[test]
fn expiry_is_checked_with_leeway() {
    let mut c = claims();
    c.exp = Some(1000);
    assert_eq!(checked_claims_at(c, 1030), Ok(("alice1".to_string(), "j".to_string())));
    let mut c = claims();
    c.exp = Some(1000);
    assert_eq!(checked_claims_at(c, 1031), Err("ExpiredSignature".to_string()));
    let mut c = claims();
    c.jti = None;
    assert_eq!(checked_claims_at(c, i64::MAX), Err("missing field `jti`".to_string()));
}

#[test]
fn a_token_from_long_ago_is_refused() {
    // Issued in 2001 for ten minutes: long expired now.
    let t = issue(1_000_000_000, 10).unwrap();
    assert_eq!(verify(t, "issuer".to_string(), "key".to_string()), Err("ExpiredSignature".to_string()));
}

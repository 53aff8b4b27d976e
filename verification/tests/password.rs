use web_api::password::{hash, verify};

#[test]
fn hash_then_verify() {
    let h = hash("P@55w0rd".to_string()).unwrap();
    assert!(h.starts_with("$argon2"));
    assert_eq!(verify("P@55w0rd".to_string(), h.clone()), Ok(true));
    assert_eq!(verify("wrong".to_string(), h), Ok(false));
}

#[test]
fn verify_rejects_a_malformed_hash() {
    assert!(verify("P@55w0rd".to_string(), "not a hash".to_string()).is_err());
}

use web_api::validation::{is_valid_account, is_valid_password};

#[test]
fn password_accepts_mixed_classes() {
    assert!(is_valid_password("P@55w0rd"));
    assert!(is_valid_password("N3wP@55w0rd"));
}

#[test]
fn password_rejects_missing_classes() {
    assert!(!is_valid_password("password"));
    assert!(!is_valid_password("PASSWORD1!"));
    assert!(!is_valid_password("password1!"));
    assert!(!is_valid_password("Password!!"));
    assert!(!is_valid_password("Password11"));
}

#[test]
fn password_length_bounds() {
    assert!(!is_valid_password(""));
    assert!(!is_valid_password("P@5w0rd"));
    assert!(is_valid_password("P@5w0rdx"));
    let long64 = format!("P@5w0rd{}", "x".repeat(57));
    assert_eq!(long64.len(), 64);
    assert!(is_valid_password(&long64));
    let long65 = format!("P@5w0rd{}", "x".repeat(58));
    assert!(!is_valid_password(&long65));
}

#[test]
fn password_rejects_other_characters() {
    assert!(!is_valid_password("P@55 w0rd"));
    assert!(!is_valid_password("P@55w0rdé"));
    assert!(!is_valid_password("P@55w0rd*"));
}

#[test]
fn account_rules() {
    assert!(is_valid_account("testuser"));
    assert!(is_valid_account("a.b-c_d@e"));
    assert!(!is_valid_account(""));
    assert!(!is_valid_account("abcde"));
    assert!(is_valid_account("abcdef"));
    assert!(is_valid_account(&"a".repeat(32)));
    assert!(!is_valid_account(&"a".repeat(33)));
    assert!(!is_valid_account("user name"));
    assert!(!is_valid_account("user!name"));
    assert!(!is_valid_account("üsername"));
}

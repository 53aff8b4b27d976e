use web_api::dto::{
    validate_account, validate_password, AuthUserDto, InfoChangeRequestDto, PasswardChangeRequestDto,
    SignupRequestDto, TodoEntryRequestDto, TodoReplacceRequestDto, TodoResponseDto,
};
use web_api::error::AppError;
use web_api::model::{Timestamp, TodoModel, UserModel};
use web_api::password;

fn signup(account: &str, email: Option<&str>, pw: &str, confirm: &str) -> SignupRequestDto {
    SignupRequestDto {
        account: account.to_string(),
        email: email.map(|s| s.to_string()),
        name: None,
        password: pw.to_string(),
        confirm_password: confirm.to_string(),
    }
}

#[test]
fn signup_checks_report_every_field() {
    let d = signup("abc", Some("bad"), "weak", "weak");
    let e = d.validate().err().unwrap();
    assert_eq!(
        e.message(),
        "account: Validation error: Invalid value. [{\"value\": String(\"abc\")}]\n\
         email: Validation error: email [{\"value\": String(\"bad\")}]\n\
         password: Validation error: Invalid value. [{\"value\": String(\"weak\")}]"
    );
    assert_eq!(e.errors.len(), 3);
}

#[test]
fn signup_checks_pass_and_mismatch() {
    let d = signup("testuser", Some("testuser@example.com"), "P@55w0rd", "P@55w0rd");
    assert!(d.validate().is_ok());
    assert!(d.custom_validate().is_ok());
    let d = signup("testuser", None, "P@55w0rd", "P@55w0rD");
    assert!(d.validate().is_ok());
    let e = d.custom_validate().err().unwrap();
    assert_eq!(e.message(), "confirm_password: Validation error: password_match [{}]");
}

#[test]
fn field_errors_come_before_the_mismatch() {
    let d = signup("testuser", None, "weak", "other");
    let e = d.custom_validate().err().unwrap();
    assert_eq!(e.message(), "password: Validation error: Invalid value. [{\"value\": String(\"weak\")}]");
}

#[test]
fn custom_validators() {
    assert!(validate_account("testuser").is_ok());
    assert_eq!(validate_account("ab").err().unwrap().text(), "account: Validation error: Invalid value. [{\"value\": String(\"ab\")}]");
    assert!(validate_password("P@55w0rd").is_ok());
    assert!(validate_password("short").is_err());
}

#[test]
fn password_change_checks() {
    let d = PasswardChangeRequestDto { now_password: "x".to_string(), password: "N3wP@55w0rd".to_string(), confirm_password: "N3wP@55w0rd".to_string() };
    assert!(d.custom_validate().is_ok());
    let d = PasswardChangeRequestDto { now_password: "x".to_string(), password: "N3wP@55w0rd".to_string(), confirm_password: "N3wP@55w0rx".to_string() };
    assert_eq!(d.custom_validate().err().unwrap().message(), "confirm_password: Validation error: password_match [{}]");
    let d = PasswardChangeRequestDto { now_password: "x".to_string(), password: "bad".to_string(), confirm_password: "bad".to_string() };
    assert!(d.validate().is_err());
}

#[test]
fn info_change_checks_only_the_email() {
    let d = InfoChangeRequestDto { password: "".to_string(), name: None, email: None };
    assert!(d.validate().is_ok());
    let d = InfoChangeRequestDto { password: "".to_string(), name: None, email: Some("a@b.example".to_string()) };
    assert!(d.validate().is_ok());
    let d = InfoChangeRequestDto { password: "".to_string(), name: None, email: Some("no-at-sign".to_string()) };
    assert_eq!(d.validate().err().unwrap().message(), "email: Validation error: email [{\"value\": String(\"no-at-sign\")}]");
}

#[test]
fn todo_length_checks() {
    let ok = TodoEntryRequestDto { due_date: Timestamp { secs: 0, nanos: 0 }, is_done: false, title: "t".to_string(), description: "d".to_string() };
    assert!(ok.validate().is_ok());
    let bad = TodoEntryRequestDto { due_date: Timestamp { secs: 0, nanos: 0 }, is_done: false, title: "".to_string(), description: "x".repeat(3001) };
    let e = bad.validate().err().unwrap();
    assert_eq!(e.errors.len(), 2);
    assert!(e.message().starts_with("title: Validation error: length [{\"min\": Number(1), \"max\": Number(300), \"value\": String(\"\")}]\ndescription:"));
    let r = TodoReplacceRequestDto { id: "x".repeat(33), due_date: Timestamp { secs: 0, nanos: 0 }, is_done: false, title: "é".repeat(300), description: "d".to_string() };
    let e = r.validate().err().unwrap();
    assert_eq!(e.errors.len(), 1);
    assert_eq!(e.errors[0].field, "id");
}

#[test]
fn conversions() {
    let u = UserModel { account: "a".to_string(), email: Some("e".to_string()), name: None, password: "p".to_string(), jwt_id: Some("j".to_string()) };
    let d = AuthUserDto::from_user(u);
    assert_eq!(d.account, "a");
    assert_eq!(d.email.as_deref(), Some("e"));
    let entry = TodoEntryRequestDto { due_date: Timestamp { secs: 7, nanos: 8 }, is_done: true, title: "t".to_string(), description: "d".to_string() };
    let m = entry.to_model("owner1".to_string());
    assert_eq!(m.id.len(), 25);
    assert_eq!(m.owner, "owner1");
    assert_eq!(m.due_date, Timestamp { secs: 7, nanos: 8 });
    let m2 = entry.to_model("owner1".to_string());
    assert_ne!(m.id, m2.id);
    let t = TodoModel { id: "i".to_string(), owner: "o".to_string(), due_date: Timestamp { secs: 1, nanos: 2 }, is_done: true, title: "t".to_string(), description: "d".to_string() };
    let r = TodoResponseDto::from_model(t);
    assert_eq!(r.id, "i");
    assert!(r.is_done);
}

#[test]
fn signup_model_hashes_the_password() {
    let d = signup("testuser", Some("t@example.com"), "P@55w0rd", "P@55w0rd");
    let m = d.to_model().unwrap();
    assert_eq!(m.account, "testuser");
    assert!(m.jwt_id.is_none());
    assert_ne!(m.password, "P@55w0rd");
    assert_eq!(password::verify("P@55w0rd".to_string(), m.password), Ok(true));
    let _ = AppError::ServerBusy();
}

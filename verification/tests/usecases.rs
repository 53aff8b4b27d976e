use web_api::applications::ApplicationsImpl;
use web_api::auth::AuthUseCase;
use web_api::config::SecurityConfig;
use web_api::dto::{InfoChangeRequestDto, PasswardChangeRequestDto, SigninRequestDto, SignupRequestDto, TodoEntryRequestDto, TodoReplacceRequestDto};
use web_api::error::AppError;
use web_api::model::Timestamp;
use web_api::store::{TodoData, UserData};
use web_api::todo::TodoUseCase;

fn security() -> SecurityConfig {
    SecurityConfig { allow_signup: true, jwt_secret: "secret".to_string(), jwt_issuer: "web-api".to_string(), jwt_expires_minutes: 60 }
}

fn auth() -> AuthUseCase {
    AuthUseCase::new(UserData::new(), security())
}

fn signup_dto(account: &str, pw: &str) -> SignupRequestDto {
    SignupRequestDto {
        account: account.to_string(),
        email: None,
        name: Some("Test User".to_string()),
        password: pw.to_string(),
        confirm_password: pw.to_string(),
    }
}

fn signin_dto(account: &str, pw: &str) -> SigninRequestDto {
    SigninRequestDto { account: account.to_string(), password: pw.to_string() }
}

fn unauthorized(r: Result<impl Sized, AppError>, reason: &str) -> bool {
    matches!(r, Err(AppError::Unauthorized(m)) if m == reason)
}

#[test]
fn signup_signin_authenticate_signout() {
    let mut a = auth();
    assert!(a.signup(signup_dto("testuser", "P@55w0rd")).is_ok());
    let resp = a.signin(signin_dto("testuser", "P@55w0rd")).ok().unwrap();
    assert_eq!(resp.account, "testuser");
    assert_eq!(resp.name.as_deref(), Some("Test User"));
    let who = a.authenticate(resp.token.clone()).ok().unwrap();
    assert_eq!(who.account, "testuser");
    assert!(a.signout(resp.token.clone()).is_ok());
    assert!(unauthorized(a.authenticate(resp.token.clone()), "Invalid token"));
    // Signing out again is no error.
    assert!(a.signout(resp.token).is_ok());
}

#[test]
fn a_new_signin_replaces_the_session() {
    let mut a = auth();
    a.signup(signup_dto("testuser", "P@55w0rd")).ok().unwrap();
    let first = a.signin(signin_dto("testuser", "P@55w0rd")).ok().unwrap();
    let second = a.signin(signin_dto("testuser", "P@55w0rd")).ok().unwrap();
    assert!(unauthorized(a.authenticate(first.token), "Invalid token"));
    assert!(a.authenticate(second.token).is_ok());
}

#[test]
fn signup_refusals() {
    let mut a = auth();
    let mut d = signup_dto("testuser", "P@55w0rd");
    d.confirm_password = "other".to_string();
    match a.signup(d) {
        Err(AppError::BadRequest(m)) => assert_eq!(m, "confirm_password: Validation error: password_match [{}]"),
        _ => panic!("expected a bad request"),
    }
    a.signup(signup_dto("testuser", "P@55w0rd")).ok().unwrap();
    match a.signup(signup_dto("testuser", "An0ther!pw")) {
        Err(AppError::BadRequest(m)) => assert_eq!(m, "Incorrect account or password."),
        _ => panic!("expected a bad request"),
    }
}

#[test]
fn signin_refusals() {
    let mut a = auth();
    assert!(unauthorized(a.signin(signin_dto("nobody", "P@55w0rd")), "Incorrect account or password."));
    a.signup(signup_dto("testuser", "P@55w0rd")).ok().unwrap();
    assert!(unauthorized(a.signin(signin_dto("testuser", "Wr0ng!pass")), "Incorrect account or password."));
}

#[test]
fn tokens_that_open_no_session() {
    let a = auth();
    assert!(unauthorized(a.authenticate("garbage".to_string()), "Invalid token"));
    assert!(unauthorized(a.authenticate_claims(Err("bad".to_string())), "Invalid token"));
    assert!(unauthorized(a.authenticate_claims(Ok(("nobody".to_string(), "j".to_string()))), "Invalid token"));
}

#[test]
fn password_change_flow() {
    let mut a = auth();
    a.signup(signup_dto("testuser", "P@55w0rd")).ok().unwrap();
    let account = "testuser".to_string();
    let wrong = PasswardChangeRequestDto { now_password: "Wr0ng!pass".to_string(), password: "N3wP@55w0rd".to_string(), confirm_password: "N3wP@55w0rd".to_string() };
    assert!(unauthorized(a.password_change(wrong, &account), "Incorrect account or password."));
    let ok = PasswardChangeRequestDto { now_password: "P@55w0rd".to_string(), password: "N3wP@55w0rd".to_string(), confirm_password: "N3wP@55w0rd".to_string() };
    assert!(a.password_change(ok, &account).is_ok());
    assert!(unauthorized(a.signin(signin_dto("testuser", "P@55w0rd")), "Incorrect account or password."));
    assert!(a.signin(signin_dto("testuser", "N3wP@55w0rd")).is_ok());
    let nobody = PasswardChangeRequestDto { now_password: "x".to_string(), password: "N3wP@55w0rd".to_string(), confirm_password: "N3wP@55w0rd".to_string() };
    assert!(unauthorized(a.password_change(nobody, &"nobody".to_string()), "Incorrect account or password."));
}

#[test]
fn info_change_flow() {
    let mut a = auth();
    a.signup(signup_dto("testuser", "P@55w0rd")).ok().unwrap();
    let account = "testuser".to_string();
    let bad = InfoChangeRequestDto { password: "P@55w0rd".to_string(), name: None, email: Some("nope".to_string()) };
    assert!(matches!(a.info_change(bad, &account), Err(AppError::BadRequest(_))));
    let ok = InfoChangeRequestDto { password: "P@55w0rd".to_string(), name: Some("New Name".to_string()), email: Some("t@example.com".to_string()) };
    assert!(a.info_change(ok, &account).is_ok());
    let resp = a.signin(signin_dto("testuser", "P@55w0rd")).ok().unwrap();
    assert_eq!(resp.name.as_deref(), Some("New Name"));
    assert_eq!(resp.email.as_deref(), Some("t@example.com"));
}

fn entry(title: &str, secs: i64) -> TodoEntryRequestDto {
    TodoEntryRequestDto { due_date: Timestamp { secs, nanos: 0 }, is_done: false, title: title.to_string(), description: "d".to_string() }
}

#[test]
fn todos_belong_to_their_owner() {
    let mut t = TodoUseCase::new(TodoData::new());
    let created = t.create(entry("first", 100), "alice1".to_string()).ok().unwrap();
    assert_eq!(created.title, "first");
    let id = created.id.clone();

    assert!(matches!(t.read(id.clone(), "bob123".to_string()), Err(AppError::Forbidden(m)) if m == "Permission denied."));
    assert!(matches!(t.delete(id.clone(), "bob123".to_string()), Err(AppError::Forbidden(_))));
    let replace = TodoReplacceRequestDto { id: id.clone(), due_date: Timestamp { secs: 5, nanos: 0 }, is_done: true, title: "changed".to_string(), description: "x".to_string() };
    assert!(matches!(t.update(replace, "bob123".to_string()), Err(AppError::Forbidden(_))));

    let got = t.read(id.clone(), "alice1".to_string()).ok().unwrap().unwrap();
    assert_eq!(got.title, "first");
    let replace = TodoReplacceRequestDto { id: id.clone(), due_date: Timestamp { secs: 5, nanos: 0 }, is_done: true, title: "changed".to_string(), description: "x".to_string() };
    let updated = t.update(replace, "alice1".to_string()).ok().unwrap();
    assert_eq!(updated.title, "changed");
    assert!(updated.is_done);
    assert!(t.delete(id.clone(), "alice1".to_string()).is_ok());
    assert!(t.read(id.clone(), "alice1".to_string()).ok().unwrap().is_none());
    match t.delete(id.clone(), "alice1".to_string()) {
        Err(AppError::DataNotFound(m)) => assert_eq!(m, format!("todo not found: \"{id}\"")),
        _ => panic!("expected not found"),
    }
}

#[test]
fn update_of_a_missing_todo() {
    let mut t = TodoUseCase::new(TodoData::new());
    let replace = TodoReplacceRequestDto { id: "missing".to_string(), due_date: Timestamp { secs: 5, nanos: 0 }, is_done: true, title: "t".to_string(), description: "x".to_string() };
    match t.update(replace, "alice1".to_string()) {
        Err(AppError::DataNotFound(m)) => assert_eq!(m, "todo not found: \"missing\""),
        _ => panic!("expected not found"),
    }
}

#[test]
fn list_latest_first() {
    let mut t = TodoUseCase::new(TodoData::new());
    t.create(entry("a", 10), "alice1".to_string()).ok().unwrap();
    t.create(entry("b", 30), "alice1".to_string()).ok().unwrap();
    t.create(entry("c", 20), "bob123".to_string()).ok().unwrap();
    t.create(entry("d", 20), "alice1".to_string()).ok().unwrap();
    let titles: Vec<String> = t.list("alice1".to_string()).into_iter().map(|d| d.title).collect();
    assert_eq!(titles, vec!["b", "d", "a"]);
}

#[test]
fn applications_hold_both() {
    let apps = ApplicationsImpl::new(UserData::new(), TodoData::new(), security());
    assert_eq!(apps.auth().security.jwt_issuer, "web-api");
    assert!(apps.todo().list("x".to_string()).is_empty());
}

#[test]
fn signin_token_gives_back_account_and_session() {
    let mut a = auth();
    a.signup(signup_dto("testuser", "P@55w0rd")).ok().unwrap();
    let resp = a.signin(signin_dto("testuser", "P@55w0rd")).ok().unwrap();
    let (sub, jti) = web_api::jwt::verify(resp.token.clone(), "web-api".to_string(), "secret".to_string()).unwrap();
    assert_eq!(sub, "testuser");
    assert_eq!(jti.len(), 25);
    let stored = a.users.read(&"testuser".to_string()).unwrap();
    assert_eq!(stored.jwt_id, Some(jti));
    // Another issuer or key refuses the token.
    assert!(web_api::jwt::verify(resp.token.clone(), "other".to_string(), "secret".to_string()).is_err());
    assert!(web_api::jwt::verify(resp.token, "web-api".to_string(), "other".to_string()).is_err());
}

#[test]
fn try_signin_where_tokens_cannot_be_timed() {
    let mut a = auth();
    a.signup(signup_dto("testuser", "P@55w0rd")).ok().unwrap();
    a.security.jwt_expires_minutes = i64::MAX;
    assert!(a.try_signin(signin_dto("testuser", "P@55w0rd")).is_none());
    assert!(a.users.read(&"testuser".to_string()).unwrap().jwt_id.is_none());
    let wrong = a.try_signin(signin_dto("testuser", "Wr0ng!pass")).unwrap();
    assert!(unauthorized(wrong, "Incorrect account or password."));
    let unknown = a.try_signin(signin_dto("nobody1", "P@55w0rd")).unwrap();
    assert!(unauthorized(unknown, "Incorrect account or password."));
    a.security.jwt_expires_minutes = 60;
    assert!(a.try_signin(signin_dto("testuser", "P@55w0rd")).unwrap().is_ok());
}

#[test]
fn helper_steps_of_the_auth_rules() {
    let mut a = auth();
    let user = web_api::model::UserModel {
        account: "carol1".to_string(),
        email: None,
        name: None,
        password: "phc".to_string(),
        jwt_id: None,
    };
    assert!(a.register(user.clone()).is_ok());
    match a.register(user.clone()) {
        Err(AppError::BadRequest(m)) => assert_eq!(m, "Incorrect account or password."),
        _ => panic!("expected a refusal"),
    }
    let resp = a.open_session(user.clone(), "s1".to_string(), "tok".to_string()).ok().unwrap();
    assert_eq!(resp.account, "carol1");
    assert_eq!(resp.token, "tok");
    assert_eq!(a.users.read(&"carol1".to_string()).unwrap().jwt_id.as_deref(), Some("s1"));
    assert!(a.set_password(&"carol1".to_string(), "phc2".to_string()).is_ok());
    let stored = a.users.read(&"carol1".to_string()).unwrap();
    assert_eq!(stored.password, "phc2");
    assert_eq!(stored.jwt_id.as_deref(), Some("s1"));
    assert!(matches!(a.set_password(&"nobody1".to_string(), "x".to_string()), Err(AppError::Unexpected(_))));
    let mut other = user;
    other.account = "dave12".to_string();
    assert!(matches!(a.open_session(other, "s".to_string(), "t".to_string()), Err(AppError::Unexpected(_))));
}

#[test]
fn todo_changes_mark_the_store_changed() {
    let mut t = TodoUseCase::new(TodoData::new());
    assert!(!t.todos.is_dirty());
    let entry = TodoEntryRequestDto {
        due_date: Timestamp { secs: 10, nanos: 0 },
        is_done: false,
        title: "t".to_string(),
        description: "d".to_string(),
    };
    let created = t.create(entry, "alice1".to_string()).ok().unwrap();
    assert_eq!(created.id.len(), 25);
    assert!(t.todos.is_dirty());
    t.todos.mark_clean();
    assert!(t.delete(created.id.clone(), "bob123".to_string()).is_err());
    assert!(!t.todos.is_dirty());
    assert!(t.delete(created.id, "alice1".to_string()).is_ok());
    assert!(t.todos.is_dirty());
}

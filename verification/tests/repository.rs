use web_api::error::DomainError;
use web_api::model::{Timestamp, TodoModel, UserModel};
use web_api::repository::{TodoRepository, UserRepository};
use web_api::store::{TodoData, UserData};

fn todo(id: &str, owner: &str, secs: i64) -> TodoModel {
    TodoModel {
        id: id.to_string(),
        owner: owner.to_string(),
        due_date: Timestamp { secs, nanos: 0 },
        is_done: false,
        title: "t".to_string(),
        description: "d".to_string(),
    }
}

fn user(account: &str) -> UserModel {
    UserModel {
        account: account.to_string(),
        email: None,
        name: None,
        password: "hash".to_string(),
        jwt_id: None,
    }
}

fn keep_user<R: UserRepository>(repo: &mut R, account: &str) -> Result<UserModel, DomainError> {
    repo.create(user(account))
}

#[test]
fn user_repository_round_trip() {
    let mut store = UserData::new();
    assert_eq!(keep_user(&mut store, "alice1").ok().unwrap().account, "alice1");
    match keep_user(&mut store, "alice1") {
        Err(DomainError::Conflict(m)) => assert_eq!(m, "todo already exists: \"alice1\""),
        _ => panic!("expected a conflict"),
    }
    let found = UserRepository::read(&store, &"alice1".to_string()).ok().unwrap();
    assert_eq!(found.unwrap().account, "alice1");
    assert!(UserRepository::read(&store, &"bob123".to_string()).ok().unwrap().is_none());
    let mut changed = user("alice1");
    changed.name = Some("Alice".to_string());
    assert!(UserRepository::update(&mut store, changed).is_ok());
    let found = UserRepository::read(&store, &"alice1".to_string()).ok().unwrap().unwrap();
    assert_eq!(found.name.as_deref(), Some("Alice"));
    assert!(UserRepository::delete(&mut store, &"alice1".to_string()).is_ok());
    match UserRepository::delete(&mut store, &"alice1".to_string()) {
        Err(DomainError::NotFound(m)) => assert_eq!(m, "todo not found: \"alice1\""),
        _ => panic!("expected not found"),
    }
    match UserRepository::update(&mut store, user("alice1")) {
        Err(DomainError::NotFound(m)) => assert_eq!(m, "todo not found: \"alice1\""),
        _ => panic!("expected not found"),
    }
}

#[test]
fn todo_repository_lists_latest_first() {
    let mut store = TodoData::new();
    TodoRepository::create(&mut store, todo("a", "alice1", 10)).ok().unwrap();
    TodoRepository::create(&mut store, todo("b", "alice1", 30)).ok().unwrap();
    TodoRepository::create(&mut store, todo("c", "bob123", 20)).ok().unwrap();
    TodoRepository::create(&mut store, todo("d", "alice1", 20)).ok().unwrap();
    let listed = TodoRepository::list(&store, &"alice1".to_string()).ok().unwrap();
    let ids: Vec<&str> = listed.iter().map(|t| t.id.as_str()).collect();
    assert_eq!(ids, vec!["b", "d", "a"]);
    assert!(TodoRepository::read(&store, &"c".to_string()).ok().unwrap().is_some());
    assert!(TodoRepository::delete(&mut store, &"c".to_string()).is_ok());
    assert!(TodoRepository::read(&store, &"c".to_string()).ok().unwrap().is_none());
}

use web_api::error::DomainError;
use web_api::model::{Timestamp, TodoModel, UserModel};
use web_api::store::{TodoData, UserData};

fn todo(id: &str, owner: &str, secs: i64) -> TodoModel {
    TodoModel {
        id: id.to_string(),
        owner: owner.to_string(),
        due_date: Timestamp { secs, nanos: 0 },
        is_done: false,
        title: format!("title {id}"),
        description: "d".to_string(),
    }
}

fn user(account: &str) -> UserModel {
    UserModel {
        account: account.to_string(),
        email: None,
        name: Some("Name".to_string()),
        password: "hash".to_string(),
        jwt_id: None,
    }
}

#[test]
fn new_store_is_empty_and_clean() {
    let s = UserData::new();
    assert!(!s.is_dirty());
    assert!(s.records().is_empty());
    assert!(s.read(&"nobody".to_string()).is_none());
}

#[test]
fn read_after_create() {
    let mut s = UserData::new();
    let created = s.create(user("alice1")).ok().unwrap();
    assert_eq!(created.account, "alice1");
    assert!(s.is_dirty());
    let got = s.read(&"alice1".to_string()).unwrap();
    assert_eq!(got.account, "alice1");
    assert_eq!(got.name.as_deref(), Some("Name"));
}

#[test]
fn create_taken_key_is_conflict() {
    let mut s = UserData::new();
    s.create(user("alice1")).ok().unwrap();
    s.mark_clean();
    match s.create(user("alice1")) {
        Err(DomainError::Conflict(m)) => assert_eq!(m, "todo already exists: \"alice1\""),
        _ => panic!("expected a conflict"),
    }
    assert!(!s.is_dirty());
    assert_eq!(s.records().len(), 1);
}

#[test]
fn update_and_delete_need_the_key() {
    let mut s = TodoData::new();
    match s.update(todo("t1", "alice1", 10)) {
        Err(DomainError::NotFound(m)) => assert_eq!(m, "todo not found: \"t1\""),
        _ => panic!("expected not found"),
    }
    match s.delete(&"t1".to_string()) {
        Err(DomainError::NotFound(m)) => assert_eq!(m, "todo not found: \"t1\""),
        _ => panic!("expected not found"),
    }
    assert!(!s.is_dirty());
}

#[test]
fn update_replaces_in_place() {
    let mut s = TodoData::new();
    s.create(todo("t1", "alice1", 10)).ok().unwrap();
    s.create(todo("t2", "alice1", 20)).ok().unwrap();
    let mut changed = todo("t1", "alice1", 30);
    changed.is_done = true;
    s.update(changed).ok().unwrap();
    let ids: Vec<String> = s.records().into_iter().map(|t| t.id).collect();
    assert_eq!(ids, vec!["t1", "t2"]);
    assert!(s.read(&"t1".to_string()).unwrap().is_done);
}

#[test]
fn delete_then_read_is_absent() {
    let mut s = TodoData::new();
    s.create(todo("t1", "alice1", 10)).ok().unwrap();
    s.create(todo("t2", "alice1", 20)).ok().unwrap();
    s.mark_clean();
    assert!(s.delete(&"t1".to_string()).is_ok());
    assert!(s.is_dirty());
    assert!(s.read(&"t1".to_string()).is_none());
    assert!(s.read(&"t2".to_string()).is_some());
    // The key is free again.
    assert!(s.create(todo("t1", "bob123", 5)).is_ok());
}

#[test]
fn debug_quoting_in_messages() {
    let mut s = TodoData::new();
    match s.delete(&"a\"b\n".to_string()) {
        Err(DomainError::NotFound(m)) => assert_eq!(m, "todo not found: \"a\\\"b\\n\""),
        _ => panic!("expected not found"),
    }
}

#[test]
fn list_filters_and_sorts_latest_first() {
    let mut s = TodoData::new();
    s.create(todo("a", "alice1", 10)).ok().unwrap();
    s.create(todo("b", "bob123", 50)).ok().unwrap();
    s.create(todo("c", "alice1", 30)).ok().unwrap();
    s.create(todo("d", "alice1", 20)).ok().unwrap();
    s.create(todo("e", "alice1", 30)).ok().unwrap();
    let ids: Vec<String> = s.list(&"alice1".to_string()).into_iter().map(|t| t.id).collect();
    assert_eq!(ids, vec!["c", "e", "d", "a"]);
    let ids: Vec<String> = s.list(&"bob123".to_string()).into_iter().map(|t| t.id).collect();
    assert_eq!(ids, vec!["b"]);
    assert!(s.list(&"carol1".to_string()).is_empty());
}

#[test]
fn list_orders_by_nanoseconds_too() {
    let mut s = TodoData::new();
    let mut early = todo("x", "alice1", 100);
    early.due_date.nanos = 1;
    let mut late = todo("y", "alice1", 100);
    late.due_date.nanos = 2;
    s.create(early).ok().unwrap();
    s.create(late).ok().unwrap();
    let ids: Vec<String> = s.list(&"alice1".to_string()).into_iter().map(|t| t.id).collect();
    assert_eq!(ids, vec!["y", "x"]);
}

#[test]
fn records_are_kept_in_key_order() {
    let mut s = TodoData::new();
    s.create(todo("m", "alice1", 1)).ok().unwrap();
    s.create(todo("b", "alice1", 1)).ok().unwrap();
    s.create(todo("x", "alice1", 1)).ok().unwrap();
    s.create(todo("ba", "alice1", 1)).ok().unwrap();
    s.create(todo("B", "alice1", 1)).ok().unwrap();
    let ids: Vec<String> = s.records().into_iter().map(|t| t.id).collect();
    assert_eq!(ids, vec!["B", "b", "ba", "m", "x"]);
    // Equal due dates list in key order, whatever the order of creation.
    let ids: Vec<String> = s.list(&"alice1".to_string()).into_iter().map(|t| t.id).collect();
    assert_eq!(ids, vec!["B", "b", "ba", "m", "x"]);
    s.delete(&"ba".to_string()).ok().unwrap();
    let ids: Vec<String> = s.records().into_iter().map(|t| t.id).collect();
    assert_eq!(ids, vec!["B", "b", "m", "x"]);
}

#[test]
fn key_order_follows_code_points() {
    let mut s = UserData::new();
    s.create(user("éclair")).ok().unwrap();
    s.create(user("zebra1")).ok().unwrap();
    s.create(user("apple1")).ok().unwrap();
    let ids: Vec<String> = s.records().into_iter().map(|u| u.account).collect();
    assert_eq!(ids, vec!["apple1", "zebra1", "éclair"]);
}


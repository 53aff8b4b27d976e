use web_api::persist::RepositoriesImpl;

fn pair(k: &str, v: &str) -> (Vec<u8>, Vec<u8>) {
    (k.as_bytes().to_vec(), v.as_bytes().to_vec())
}

fn sorted(mut v: Vec<(Vec<u8>, Vec<u8>)>) -> Vec<(Vec<u8>, Vec<u8>)> {
    v.sort();
    v
}

#[test]
fn keyspaces_hold_exactly_what_was_saved() {
    let nanos = std::time::SystemTime::now().duration_since(std::time::UNIX_EPOCH).unwrap().as_nanos();
    let dir = format!("/tmp/web_api_persist_{}", nanos);
    let dir = dir.as_str();
    {
        let mut repos = match RepositoriesImpl::new(dir) {
            Ok(r) => r,
            Err(e) => panic!("{}", e.into_domain().message()),
        };
        assert!(repos.user_entries().ok().unwrap().is_empty());
        repos.save_users(&vec![pair("alice1", "{\"a\":1}"), pair("bob123", "{\"b\":2}")]).ok().unwrap();
        repos.save_todos(&vec![pair("t1", "x")]).ok().unwrap();
        assert_eq!(
            sorted(repos.user_entries().ok().unwrap()),
            vec![pair("alice1", "{\"a\":1}"), pair("bob123", "{\"b\":2}")]
        );
        // A key that the new records lack is removed; a repeated key keeps the last value.
        repos.save_users(&vec![pair("bob123", "old"), pair("bob123", "new")]).ok().unwrap();
        assert_eq!(repos.user_entries().ok().unwrap(), vec![pair("bob123", "new")]);
        assert_eq!(repos.todo_entries().ok().unwrap(), vec![pair("t1", "x")]);
        repos.flush().ok().unwrap();
    }
    {
        // Opening again starts from empty keyspaces: nothing survives.
        let repos = RepositoriesImpl::new(dir).ok().unwrap();
        assert!(repos.user_entries().ok().unwrap().is_empty());
        assert!(repos.todo_entries().ok().unwrap().is_empty());
    }
}

fn user(account: &str) -> web_api::model::UserModel {
    web_api::model::UserModel {
        account: account.to_string(),
        email: None,
        name: None,
        password: "hash".to_string(),
        jwt_id: None,
    }
}

#[test]
fn commit_writes_only_changed_stores() {
    let nanos = std::time::SystemTime::now().duration_since(std::time::UNIX_EPOCH).unwrap().as_nanos();
    let dir = format!("/tmp/web_api_commit_{}", nanos);
    let mut repos = RepositoriesImpl::new(dir.as_str()).ok().unwrap();
    let mut users = web_api::store::UserData::new();
    users.create(user("bob123")).ok().unwrap();
    users.create(user("alice1")).ok().unwrap();
    assert!(users.is_dirty());
    // The encodings follow the order of the records: by account.
    let values = vec![b"A".to_vec(), b"B".to_vec()];
    repos.commit_users(&mut users, &values).ok().unwrap();
    assert!(!users.is_dirty());
    assert_eq!(sorted(repos.user_entries().ok().unwrap()), vec![pair("alice1", "A"), pair("bob123", "B")]);
    // A clean store is not written again.
    repos.commit_users(&mut users, &Vec::new()).ok().unwrap();
    assert_eq!(sorted(repos.user_entries().ok().unwrap()), vec![pair("alice1", "A"), pair("bob123", "B")]);
    users.delete(&"alice1".to_string()).ok().unwrap();
    repos.commit_users(&mut users, &vec![b"C".to_vec()]).ok().unwrap();
    assert_eq!(repos.user_entries().ok().unwrap(), vec![pair("bob123", "C")]);
    let mut todos = web_api::store::TodoData::new();
    repos.commit_todos(&mut todos, &Vec::new()).ok().unwrap();
    assert!(repos.todo_entries().ok().unwrap().is_empty());
}

#[test]
fn storage_errors_keep_their_text() {
    match web_api::persist::external("disk full".to_string()) {
        web_api::error::RepositoryError::External(m) => assert_eq!(m, "disk full"),
        _ => panic!("expected an external error"),
    }
}

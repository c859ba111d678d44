use userdb::{MemStore, StoreError};

fn store_with_user(unique: bool) -> MemStore {
    let mut s = MemStore::new(unique);
    s.create_user("a@x.com", "A", "p1").unwrap();
    s
}

#[test]
fn created_user_email_exists() {
    let mut s = MemStore::new(false);
    assert!(!s.check_email_exists("a@x.com"));
    assert_eq!(s.create_user("a@x.com", "A", "p1"), Ok(()));
    assert!(s.check_email_exists("a@x.com"));
    assert!(!s.check_email_exists("A@x.com"));
    assert!(!s.check_email_exists(" a@x.com"));
}

#[test]
fn login_with_right_and_wrong_password() {
    let s = store_with_user(false);
    assert_eq!(s.get_user_id_from_login("a@x.com", "p1"), Some(1));
    assert_eq!(s.get_user_id_from_login("a@x.com", "wrong"), None);
}

#[test]
fn unknown_email_and_wrong_password_look_the_same() {
    let s = store_with_user(false);
    let unknown = s.get_user_id_from_login("b@x.com", "p1");
    let wrong = s.get_user_id_from_login("a@x.com", "p2");
    assert_eq!(unknown, None);
    assert_eq!(unknown, wrong);
}

#[test]
fn login_on_empty_store_is_not_found() {
    let s = MemStore::new(true);
    assert_eq!(s.get_user_id_from_login("", ""), None);
}

#[test]
fn login_picks_second_user() {
    let mut s = MemStore::new(true);
    s.create_user("a@x.com", "A", "p1").unwrap();
    s.create_user("b@x.com", "B", "p2").unwrap();
    assert_eq!(s.get_user_id_from_login("b@x.com", "p2"), Some(2));
    assert_eq!(s.get_user_id_from_login("b@x.com", "p1"), None);
}

#[test]
fn login_with_duplicate_emails_takes_first_match() {
    let mut s = MemStore::new(false);
    s.create_user("a@x.com", "A", "p1").unwrap();
    s.create_user("a@x.com", "A2", "p2").unwrap();
    s.create_user("a@x.com", "A3", "p1").unwrap();
    assert_eq!(s.get_user_id_from_login("a@x.com", "p1"), Some(1));
    assert_eq!(s.get_user_id_from_login("a@x.com", "p2"), Some(2));
}

#[test]
fn created_session_is_valid() {
    let mut s = store_with_user(false);
    let sid = s.create_session(1).unwrap();
    assert_eq!(sid, 1);
    assert!(s.check_session_id(sid));
    assert!(!s.check_session_id(sid + 1_000_000));
    assert!(!s.check_session_id(0));
    assert!(!s.check_session_id(-1));
    let second = s.create_session(1).unwrap();
    assert_eq!(second, 2);
    assert!(s.check_session_id(second));
}

#[test]
fn session_for_unknown_user_fails() {
    let mut s = store_with_user(false);
    assert_eq!(s.create_session(2), Err(StoreError::UnknownUser));
    assert_eq!(s.create_session(0), Err(StoreError::UnknownUser));
    assert_eq!(s.create_session(i32::MAX), Err(StoreError::UnknownUser));
    assert!(!s.check_session_id(1));
}

#[test]
fn posts_empty_then_listed() {
    let mut s = MemStore::new(false);
    assert!(s.get_posts().is_empty());
    s.create_user("a@x.com", "A", "p1").unwrap();
    s.create_user("b@x.com", "B", "p2").unwrap();
    assert_eq!(s.insert_post("hello", 1), Ok(1));
    assert_eq!(s.insert_post("world", 2), Ok(2));
    let posts = s.get_posts();
    assert_eq!(posts.len(), 2);
    assert!(posts.iter().any(|p| p.body == "hello" && p.author_id == 1 && p.id == 1));
    assert!(posts.iter().any(|p| p.body == "world" && p.author_id == 2 && p.id == 2));
}

#[test]
fn post_by_unknown_author_fails() {
    let mut s = MemStore::new(false);
    assert_eq!(s.insert_post("hello", 1), Err(StoreError::UnknownUser));
    assert!(s.get_posts().is_empty());
}

#[test]
fn same_email_twice_with_unique_emails() {
    let mut s = MemStore::new(true);
    let first = s.create_user("a@x.com", "A", "p1");
    let second = s.create_user("a@x.com", "B", "p2");
    assert_eq!(first, Ok(()));
    assert_eq!(second, Err(StoreError::DuplicateEmail));
    assert_eq!(s.get_user_id_from_login("a@x.com", "p2"), None);
    assert_eq!(s.get_user_id_from_login("a@x.com", "p1"), Some(1));
}

#[test]
fn same_email_twice_without_unique_emails() {
    let mut s = MemStore::new(false);
    assert_eq!(s.create_user("a@x.com", "A", "p1"), Ok(()));
    assert_eq!(s.create_user("a@x.com", "B", "p2"), Ok(()));
    assert_eq!(s.get_user_id_from_login("a@x.com", "p2"), Some(2));
}

use pmctl::database::{DbError, UserTable};
use pmctl::user::{register_plain, rename, reset_password_plain, UserError};

#[test]
fn add_creates_initialized_row() {
    let mut table = UserTable::new();
    let r = register_plain(&mut table, "alice".to_string(), "secret123");
    assert!(r.is_ok());
    assert_eq!(table.len(), 1);
    let rec = table.find_user(&"alice".to_string()).expect("alice must be present");
    assert_eq!(rec.name, "alice");
    assert!(rec.initialized);
    assert_ne!(rec.password, "secret123");
    assert_eq!(rec.password.len(), 60);
    assert!(rec.password.starts_with('$'));
    assert!(bcrypt::verify("secret123", &rec.password).unwrap());
}

#[test]
fn duplicate_add_fails_and_preserves_row() {
    let mut table = UserTable::new();
    assert!(register_plain(&mut table, "alice".to_string(), "first").is_ok());
    let stored = table.find_user(&"alice".to_string()).unwrap().password.clone();
    let r = register_plain(&mut table, "alice".to_string(), "second");
    assert_eq!(r, Err(UserError::Db(DbError::DuplicateName)));
    assert_eq!(table.len(), 1);
    let rec = table.find_user(&"alice".to_string()).unwrap();
    assert_eq!(rec.password, stored);
    assert!(rec.initialized);
    assert!(bcrypt::verify("first", &rec.password).unwrap());
    assert!(!bcrypt::verify("second", &rec.password).unwrap());
}

#[test]
fn reset_password_replaces_hash() {
    let mut table = UserTable::new();
    assert!(register_plain(&mut table, "alice".to_string(), "oldsecret").is_ok());
    let r = reset_password_plain(&mut table, "alice".to_string(), "newsecret");
    assert!(r.is_ok());
    assert_eq!(table.len(), 1);
    let rec = table.find_user(&"alice".to_string()).unwrap();
    assert!(rec.initialized);
    assert!(!bcrypt::verify("oldsecret", &rec.password).unwrap());
    assert!(bcrypt::verify("newsecret", &rec.password).unwrap());
}

#[test]
fn reset_password_missing_user_fails() {
    let mut table = UserTable::new();
    let r = reset_password_plain(&mut table, "nobody".to_string(), "secret");
    assert_eq!(r, Err(UserError::Db(DbError::NoSuchUser)));
    assert_eq!(table.len(), 0);
}

#[test]
fn rename_changes_only_name() {
    let mut table = UserTable::new();
    assert!(register_plain(&mut table, "alice".to_string(), "apw").is_ok());
    assert!(register_plain(&mut table, "bob".to_string(), "bpw").is_ok());
    let alice_password = table.find_user(&"alice".to_string()).unwrap().password.clone();
    let bob_password = table.find_user(&"bob".to_string()).unwrap().password.clone();

    let r = rename(&mut table, "alice".to_string(), "carol".to_string());
    assert!(r.is_ok());
    assert_eq!(table.len(), 2);
    assert!(table.find_user(&"alice".to_string()).is_none());
    let carol = table.find_user(&"carol".to_string()).unwrap();
    assert_eq!(carol.password, alice_password);
    assert!(carol.initialized);
    let bob = table.find_user(&"bob".to_string()).unwrap();
    assert_eq!(bob.password, bob_password);
    assert!(bob.initialized);
}

#[test]
fn rename_to_taken_name_fails() {
    let mut table = UserTable::new();
    assert!(register_plain(&mut table, "alice".to_string(), "apw").is_ok());
    assert!(register_plain(&mut table, "bob".to_string(), "bpw").is_ok());
    let r = rename(&mut table, "alice".to_string(), "bob".to_string());
    assert_eq!(r, Err(UserError::Db(DbError::DuplicateName)));
    assert!(table.find_user(&"alice".to_string()).is_some());
    assert!(table.find_user(&"bob".to_string()).is_some());
}

#[test]
fn rename_missing_user_fails() {
    let mut table = UserTable::new();
    let r = rename(&mut table, "alice".to_string(), "carol".to_string());
    assert_eq!(r, Err(UserError::Db(DbError::NoSuchUser)));
    assert_eq!(table.len(), 0);
}

#[test]
fn rename_to_same_name_succeeds() {
    let mut table = UserTable::new();
    assert!(register_plain(&mut table, "alice".to_string(), "apw").is_ok());
    let stored = table.find_user(&"alice".to_string()).unwrap().password.clone();
    let r = rename(&mut table, "alice".to_string(), "alice".to_string());
    assert!(r.is_ok());
    let rec = table.find_user(&"alice".to_string()).unwrap();
    assert_eq!(rec.password, stored);
}

#[test]
fn empty_table_has_no_users() {
    let table = UserTable::new();
    assert_eq!(table.len(), 0);
    assert!(table.find_user(&"alice".to_string()).is_none());
}

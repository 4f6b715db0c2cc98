use pmctl::database::UserTable;
use pmctl::user::{
    hash_secret, register, register_plain, select_password_source, Password, PasswordSource,
    UserError,
};

#[test]
fn hashing_is_one_way() {
    let digest = hash_secret("secret").unwrap();
    assert_ne!(digest, "secret");
    assert_eq!(digest.len(), 60);
    assert!(bcrypt::verify("secret", &digest).unwrap());
    assert!(!bcrypt::verify("Secret", &digest).unwrap());
    assert!(!bcrypt::verify("secret ", &digest).unwrap());
}

#[test]
fn literal_password_yields_itself() {
    let secret = "plain-value".to_string();
    assert_eq!(secret.get(), "plain-value");
}

#[test]
fn register_through_password_source() {
    let mut table = UserTable::new();
    let r = register(&mut table, "alice".to_string(), "via-trait".to_string());
    assert!(r.is_ok());
    let rec = table.find_user(&"alice".to_string()).unwrap();
    assert!(bcrypt::verify("via-trait", &rec.password).unwrap());
}

#[test]
fn stdin_wins_over_literal() {
    let source = select_password_source(Some("literal-secret".to_string()), true);
    assert_eq!(source, Ok(PasswordSource::Stdin));

    // The dispatcher now reads standard input; feed what it would have read
    // and check that only the stdin-supplied value is hashed and stored.
    let stdin_secret = "stdin-secret\n";
    let mut table = UserTable::new();
    assert!(register_plain(&mut table, "alice".to_string(), stdin_secret).is_ok());
    let rec = table.find_user(&"alice".to_string()).unwrap();
    assert!(bcrypt::verify(stdin_secret, &rec.password).unwrap());
    assert!(!bcrypt::verify("literal-secret", &rec.password).unwrap());
}

#[test]
fn stdin_selected_without_literal() {
    assert_eq!(select_password_source(None, true), Ok(PasswordSource::Stdin));
}

#[test]
fn literal_selected_without_stdin() {
    let source = select_password_source(Some("literal-secret".to_string()), false);
    assert_eq!(source, Ok(PasswordSource::Literal("literal-secret".to_string())));
}

#[test]
fn missing_password_source_is_rejected_before_the_gateway() {
    let table = UserTable::new();
    let source = select_password_source(None, false);
    assert_eq!(source, Err(UserError::MissingSecret));
    // The command stops here: no mutation may have happened.
    assert_eq!(table.len(), 0);
}

use backend::account::{after_lookup, after_save, contains_text, register_action, save_failure, verdict, Action, Lookup, Outcome, Saved};
use backend::password::{hash_password, verify_password, PasswordError};
use backend::tables::Users;

fn registered(username: &str, password: &str, status: i32, id: u64) -> Users {
    let mut user = Users::new(username, password, status).unwrap();
    user.id = id;
    user
}

#[test]
fn register_alice_is_created() {
    let action = after_lookup("alice", "hunter2", 0, Lookup::Missing);
    let user = match action {
        Action::Save(user) => user,
        Action::Finish(out) => panic!("expected a row to write, got {:?}", out),
    };
    assert_eq!(user.id, 0);
    assert_eq!(user.username, "alice");
    assert_eq!(user.status, 0);
    assert_ne!(user.password, "hunter2");
    let out = after_save(&user, Saved::Stored(1));
    assert_eq!(out, Outcome::Created { id: 1, username: "alice".to_string(), status: 0 });
}

#[test]
fn alice_with_right_password_is_verified() {
    let alice = registered("alice", "hunter2", 0, 1);
    let action = after_lookup("alice", "hunter2", 0, Lookup::Found(alice));
    assert_eq!(
        action,
        Action::Finish(Outcome::Verified { id: 1, username: "alice".to_string(), status: 0 })
    );
}

#[test]
fn alice_with_wrong_password_is_refused() {
    let alice = registered("alice", "hunter2", 0, 1);
    let action = after_lookup("alice", "wrong", 0, Lookup::Found(alice));
    assert_eq!(action, Action::Finish(Outcome::InvalidCredentials));
}

#[test]
fn racing_registration_of_alice_is_a_duplicate() {
    let second = Users { id: 0, username: "alice".to_string(), password: "x".to_string(), status: 0 };
    let saved = save_failure("SQLite failure: `UNIQUE constraint failed: users.username`".to_string());
    assert_eq!(saved, Saved::Duplicate);
    assert_eq!(after_save(&second, saved), Outcome::DuplicateUsername);
}

#[test]
fn other_write_failure_keeps_its_message() {
    let saved = save_failure("database is locked".to_string());
    assert_eq!(saved, Saved::Failed("database is locked".to_string()));
    let user = Users { id: 0, username: "bob".to_string(), password: "x".to_string(), status: 3 };
    assert_eq!(
        after_save(&user, saved),
        Outcome::StorageError { message: "database is locked".to_string() }
    );
}

#[test]
fn failed_lookup_is_a_storage_error() {
    let action = after_lookup("alice", "hunter2", 0, Lookup::Failed("no such table: users".to_string()));
    assert_eq!(
        action,
        Action::Finish(Outcome::StorageError { message: "no such table: users".to_string() })
    );
}

#[test]
fn created_keeps_the_given_status() {
    let user = Users { id: 0, username: "carol".to_string(), password: "x".to_string(), status: 7 };
    assert_eq!(
        after_save(&user, Saved::Stored(42)),
        Outcome::Created { id: 42, username: "carol".to_string(), status: 7 }
    );
}

#[test]
fn unreadable_stored_hash_is_a_storage_error() {
    let user = Users { id: 5, username: "dave".to_string(), password: "hunter2".to_string(), status: 0 };
    assert_eq!(user.check_password("hunter2"), Err(PasswordError::MalformedHash));
    let action = after_lookup("dave", "hunter2", 0, Lookup::Found(user));
    assert_eq!(
        action,
        Action::Finish(Outcome::StorageError { message: "password hash failed".to_string() })
    );
}

#[test]
fn verdict_follows_the_check() {
    let user = Users { id: 9, username: "erin".to_string(), password: "h".to_string(), status: 2 };
    assert_eq!(
        verdict(&user, Ok(true)),
        Outcome::Verified { id: 9, username: "erin".to_string(), status: 2 }
    );
    assert_eq!(verdict(&user, Ok(false)), Outcome::InvalidCredentials);
    assert_eq!(
        verdict(&user, Err(PasswordError::MalformedHash)),
        Outcome::StorageError { message: "password hash failed".to_string() }
    );
}

#[test]
fn hash_differs_from_plaintext_and_checks() {
    let hash = hash_password("hunter2").unwrap();
    assert_ne!(hash, "hunter2");
    assert!(hash.starts_with("$pbkdf2-sha512$"));
    assert_eq!(verify_password("hunter2", &hash), Ok(true));
}

#[test]
fn two_hashes_of_one_password_differ() {
    let a = hash_password("hunter2").unwrap();
    let b = hash_password("hunter2").unwrap();
    assert_ne!(a, b);
}

#[test]
fn text_search_edges() {
    assert!(contains_text("abc", ""));
    assert!(contains_text("", ""));
    assert!(!contains_text("", "a"));
    assert!(contains_text("abc", "abc"));
    assert!(contains_text("xxabc", "bc"));
    assert!(!contains_text("ab", "abc"));
    assert!(!contains_text("UNIQUE constraint", "UNIQUE constraint failed"));
}

#[test]
fn register_action_writes_the_given_hash() {
    let action = register_action("frank", 4, Ok("$pbkdf2-sha512$i=1$abc$def".to_string()));
    assert_eq!(
        action,
        Action::Save(Users {
            id: 0,
            username: "frank".to_string(),
            password: "$pbkdf2-sha512$i=1$abc$def".to_string(),
            status: 4,
        })
    );
    let failed = register_action("frank", 4, Err(PasswordError::HashingFailed));
    assert_eq!(
        failed,
        Action::Finish(Outcome::StorageError { message: "password hash failed".to_string() })
    );
}

use link_archive::identity::{resolve, resolve_delegated, subject_id, Delegated};
use link_archive::models::{Time, User};
use link_archive::Error;

fn user(id: u32, name: &str, deleted: Option<Time>) -> User {
    User {
        id,
        name: name.to_string(),
        password: "hash".to_string(),
        token_version: 0,
        created: Time { unix_secs: 1614834367 },
        deleted,
    }
}

#[test]
fn subject_must_be_a_user_id() {
    assert!(matches!(subject_id("7"), Ok(7)));
    assert!(matches!(subject_id("4294967295"), Ok(4294967295)));
    assert!(matches!(subject_id("alice"), Err(Error::FailedLogin)));
    assert!(matches!(subject_id(""), Err(Error::FailedLogin)));
    assert!(matches!(subject_id("4294967296"), Err(Error::FailedLogin)));
    assert!(matches!(subject_id("self"), Err(Error::FailedLogin)));
}

#[test]
fn resolve_known_user() {
    let who = resolve(Ok(user(7, "alice", None))).unwrap();
    assert_eq!(who.id, 7);
    assert_eq!(who.name, "alice");
}

#[test]
fn resolve_hides_why_the_user_is_not_there() {
    assert!(matches!(resolve(Err(Error::UserIdNotFound(7))), Err(Error::FailedLogin)));
    assert!(matches!(
        resolve(Err(Error::UserNameNotFound("alice".to_string()))),
        Err(Error::FailedLogin)
    ));
    assert!(matches!(
        resolve(Ok(user(7, "alice", Some(Time { unix_secs: 1614834368 })))),
        Err(Error::FailedLogin)
    ));
}

#[test]
fn resolve_keeps_other_store_errors() {
    assert!(matches!(resolve(Err(Error::Internal)), Err(Error::Internal)));
}

#[test]
fn delegated_known_user() {
    match resolve_delegated("alice", Ok(user(7, "alice", None))) {
        Delegated::Known(who) => {
            assert_eq!(who.id, 7);
            assert_eq!(who.name, "alice");
        }
        _ => panic!("a known user"),
    }
}

#[test]
fn delegated_registers_a_new_name() {
    match resolve_delegated("carol", Err(Error::UserNameNotFound("carol".to_string()))) {
        Delegated::Register(name) => assert_eq!(name, "carol"),
        _ => panic!("a new name"),
    }
}

#[test]
fn delegated_failures() {
    assert!(matches!(
        resolve_delegated("alice", Ok(user(7, "alice", Some(Time { unix_secs: 1 })))),
        Delegated::Failed(Error::FailedLogin)
    ));
    assert!(matches!(
        resolve_delegated("alice", Err(Error::Internal)),
        Delegated::Failed(Error::Internal)
    ));
    assert!(matches!(
        resolve_delegated("alice", Err(Error::UserIdNotFound(7))),
        Delegated::Failed(Error::UserIdNotFound(7))
    ));
}

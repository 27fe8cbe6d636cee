use author::middleware::{Rejection, Session};
use author::session::in_memory::InMemorySessionData;
use author::session::SessionError;
use author::user::{User, UserSession, UserWithRole};
use std::sync::Arc;

type Data = InMemorySessionData<String>;

/// A session whose backend is down.
#[derive(Debug)]
struct Broken;

impl UserSession for Broken {
    type User = String;

    fn set_user(&self, _user: String) -> Result<(), SessionError> {
        Err(SessionError::UnexpectedError(String::from("down")))
    }

    fn unset_user(&self) -> Result<(), SessionError> {
        Err(SessionError::UnexpectedError(String::from("down")))
    }

    fn current_user(&self) -> Result<Option<String>, SessionError> {
        Err(SessionError::UnexpectedError(String::from("down")))
    }
}

fn with_user(name: &str) -> Session<Data> {
    let data = Data::new();
    data.set_user(name.to_string()).unwrap();
    Session(data)
}

#[test]
fn required_user_is_found() {
    let session = with_user("alice");
    let User(name, _) = User::<String, Data>::from_session(Some(&session)).unwrap();
    assert_eq!(name, "alice");
}

#[test]
fn required_user_without_session_is_forbidden() {
    let found = User::<String, Data>::from_session(None);
    assert!(matches!(found, Err(Rejection::Forbidden)));
}

#[test]
fn required_user_without_user_is_forbidden() {
    let session = Session(Data::new());
    let found = User::<String, Data>::from_session(Some(&session));
    assert!(matches!(found, Err(Rejection::Forbidden)));
    let data = Data::new();
    data.set_user(String::from("bob")).unwrap();
    data.unset_user().unwrap();
    let found = User::<String, Data>::from_session(Some(&Session(data)));
    assert!(matches!(found, Err(Rejection::Forbidden)));
}

#[test]
fn required_user_of_a_failing_session_is_forbidden() {
    let found = User::<String, Broken>::from_session(Some(&Session(Broken)));
    assert!(matches!(found, Err(Rejection::Forbidden)));
}

#[test]
fn optional_user_is_found() {
    let session = with_user("alice");
    let found = User::<String, Data>::optional_from_session(Some(&session)).unwrap();
    assert_eq!(found.map(|user| user.0), Some(String::from("alice")));
}

#[test]
fn optional_user_without_session_is_anonymous() {
    let found = User::<String, Data>::optional_from_session(None).unwrap();
    assert!(found.is_none());
}

#[test]
fn optional_user_without_user_is_anonymous() {
    let session = Session(Data::new());
    let found = User::<String, Data>::optional_from_session(Some(&session)).unwrap();
    assert!(found.is_none());
}

#[test]
fn optional_user_of_a_failing_session_is_forbidden() {
    let found = User::<String, Broken>::optional_from_session(Some(&Session(Broken)));
    assert!(matches!(found, Err(Rejection::Forbidden)));
}

#[test]
fn user_from_an_answer() {
    let found = User::<u8, Data>::required(Ok(Some(3))).unwrap();
    assert_eq!(found.0, 3);
    assert!(matches!(
        User::<u8, Data>::required(Ok(None)),
        Err(Rejection::Forbidden)
    ));
    assert!(matches!(
        User::<u8, Data>::required(Err(SessionError::SessionNotFound)),
        Err(Rejection::Forbidden)
    ));
    let found = User::<u8, Data>::optional(Ok(Some(3))).unwrap();
    assert_eq!(found.map(|user| user.0), Some(3));
    assert!(User::<u8, Data>::optional(Ok(None)).unwrap().is_none());
    assert!(matches!(
        User::<u8, Data>::optional(Err(SessionError::SessionNotFound)),
        Err(Rejection::Forbidden)
    ));
}

#[test]
fn user_of_a_shared_session() {
    let data: Arc<Data> = Arc::new(Data::new());
    let session = Session(Arc::clone(&data));
    let found = User::<String, Arc<Data>>::from_session(Some(&session));
    assert!(matches!(found, Err(Rejection::Forbidden)));
    data.set_user(String::from("erin")).unwrap();
    let User(name, _) = User::<String, Arc<Data>>::from_session(Some(&session)).unwrap();
    assert_eq!(name, "erin");
    data.unset_user().unwrap();
    let found = User::<String, Arc<Data>>::optional_from_session(Some(&session)).unwrap();
    assert!(found.is_none());
}

#[test]
fn user_with_role_wraps_the_user() {
    let UserWithRole(name) = UserWithRole(String::from("admin"));
    assert_eq!(name, "admin");
}

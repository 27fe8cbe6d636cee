use author::session::bag::AttributeBag;
use author::session::in_memory::InMemorySessionData;
use author::session::store::{CreateNew, SessionDataValueStorage};
use author::session::SessionError;
use author::user::UserSession;
use std::sync::Arc;

fn text(s: &str) -> String {
    s.to_string()
}

#[test]
fn new_bag_is_empty() {
    let bag: AttributeBag<String> = AttributeBag::new();
    assert_eq!(bag.get_value("a"), None);
    assert_eq!(bag.get_value(""), None);
    assert_eq!(bag.current_user(), None);
}

#[test]
fn bag_set_then_get() {
    let mut bag: AttributeBag<String> = AttributeBag::new();
    bag.set_value(text("name"), text("x"));
    assert_eq!(bag.get_value("name"), Some(&text("x")));
    assert_eq!(bag.get_value("other"), None);
    assert_eq!(bag.get_value(""), None);
    assert_eq!(bag.get_value("nam"), None);
    assert_eq!(bag.get_value("name "), None);
    assert_eq!(bag.get_value("Name"), None);
}

#[test]
fn bag_last_writer_wins() {
    let mut bag: AttributeBag<u32> = AttributeBag::new();
    bag.set_value(text("count"), 1);
    bag.set_value(text("other"), 10);
    bag.set_value(text("count"), 2);
    bag.set_value(text("count"), 3);
    assert_eq!(bag.get_value("count"), Some(&3));
    assert_eq!(bag.get_value("other"), Some(&10));
}

#[test]
fn bag_unset_removes_only_that_key() {
    let mut bag: AttributeBag<u32> = AttributeBag::new();
    bag.set_value(text("a"), 1);
    bag.set_value(text("b"), 2);
    bag.set_value(text("c"), 3);
    bag.unset_value("b");
    assert_eq!(bag.get_value("a"), Some(&1));
    assert_eq!(bag.get_value("b"), None);
    assert_eq!(bag.get_value("c"), Some(&3));
    bag.unset_value("a");
    bag.unset_value("c");
    assert_eq!(bag.get_value("a"), None);
    assert_eq!(bag.get_value("c"), None);
}

#[test]
fn bag_unset_of_a_missing_key_changes_nothing() {
    let mut bag: AttributeBag<u32> = AttributeBag::new();
    bag.unset_value("a");
    bag.set_value(text("a"), 1);
    bag.unset_value("b");
    assert_eq!(bag.get_value("a"), Some(&1));
}

#[test]
fn bag_set_after_unset() {
    let mut bag: AttributeBag<u32> = AttributeBag::new();
    bag.set_value(text("a"), 1);
    bag.unset_value("a");
    bag.set_value(text("a"), 7);
    assert_eq!(bag.get_value("a"), Some(&7));
}

#[test]
fn bag_holds_values_that_cannot_be_copied() {
    struct Token(u8);
    let mut bag: AttributeBag<Token> = AttributeBag::new();
    bag.set_value(text("t"), Token(4));
    bag.set_value(text("u"), Token(5));
    bag.set_value(text("t"), Token(6));
    assert_eq!(bag.get_value("t").map(|t| t.0), Some(6));
    bag.unset_value("t");
    assert!(bag.get_value("t").is_none());
    assert_eq!(bag.get_value("u").map(|t| t.0), Some(5));
}

#[test]
fn bag_of_many_keys() {
    let mut bag: AttributeBag<usize> = AttributeBag::new();
    for i in 0..200 {
        bag.set_value(format!("key{}", i), i);
    }
    for i in 0..200 {
        assert_eq!(bag.get_value(&format!("key{}", i)), Some(&i));
    }
    for i in (0..200).step_by(2) {
        bag.unset_value(&format!("key{}", i));
    }
    for i in 0..200 {
        let expected = if i % 2 == 0 { None } else { Some(&i) };
        assert_eq!(bag.get_value(&format!("key{}", i)), expected);
    }
}

#[test]
fn bag_keeps_the_user_under_the_reserved_name() {
    let mut bag: AttributeBag<String> = AttributeBag::new();
    bag.set_user(text("alice"));
    assert_eq!(bag.current_user(), Some(&text("alice")));
    assert_eq!(bag.get_value("current_user"), Some(&text("alice")));
    bag.set_value(text("name"), text("x"));
    bag.set_user(text("bob"));
    assert_eq!(bag.current_user(), Some(&text("bob")));
    bag.unset_user();
    assert_eq!(bag.current_user(), None);
    assert_eq!(bag.get_value("current_user"), None);
    assert_eq!(bag.get_value("name"), Some(&text("x")));
    bag.set_value(text("current_user"), text("carol"));
    assert_eq!(bag.current_user(), Some(&text("carol")));
}

#[test]
fn new_data_is_empty() {
    let data: InMemorySessionData<String> = InMemorySessionData::new();
    assert!(matches!(data.get_value(&text("a")), Ok(None)));
    let made: InMemorySessionData<String> = CreateNew::new();
    assert!(matches!(made.get_value(&text("a")), Ok(None)));
    assert!(matches!(made.current_user(), Ok(None)));
}

#[test]
fn set_then_get() {
    let data: InMemorySessionData<String> = InMemorySessionData::new();
    assert!(matches!(data.set_value(text("name"), text("x")), Ok(())));
    assert_eq!(data.get_value(&text("name")).unwrap(), Some(text("x")));
    assert_eq!(data.get_value(&text("other")).unwrap(), None);
    assert_eq!(data.get_value(&text("")).unwrap(), None);
}

#[test]
fn last_writer_wins() {
    let data: InMemorySessionData<u32> = InMemorySessionData::new();
    data.set_value(text("count"), 1).unwrap();
    data.set_value(text("other"), 10).unwrap();
    data.set_value(text("count"), 2).unwrap();
    data.set_value(text("count"), 3).unwrap();
    assert_eq!(data.get_value(&text("count")).unwrap(), Some(3));
    assert_eq!(data.get_value(&text("other")).unwrap(), Some(10));
}

#[test]
fn unset_removes_only_that_key() {
    let data: InMemorySessionData<u32> = InMemorySessionData::new();
    data.set_value(text("a"), 1).unwrap();
    data.set_value(text("b"), 2).unwrap();
    assert!(matches!(data.unset_value(&text("b")), Ok(())));
    assert!(matches!(data.unset_value(&text("missing")), Ok(())));
    assert_eq!(data.get_value(&text("a")).unwrap(), Some(1));
    assert_eq!(data.get_value(&text("b")).unwrap(), None);
}

#[test]
fn shared_handles_see_one_bag() {
    let first: Arc<InMemorySessionData<String>> = Arc::new(InMemorySessionData::new());
    let second = Arc::clone(&first);
    first.set_value(text("name"), text("x")).unwrap();
    assert_eq!(second.get_value(&text("name")).unwrap(), Some(text("x")));
    second.set_value(text("name"), text("y")).unwrap();
    assert_eq!(first.get_value(&text("name")).unwrap(), Some(text("y")));
    second.unset_value(&text("name")).unwrap();
    assert_eq!(first.get_value(&text("name")).unwrap(), None);
}

#[test]
fn attribute_isolation() {
    let first: InMemorySessionData<String> = InMemorySessionData::new();
    let second: InMemorySessionData<String> = InMemorySessionData::new();
    second.set_value(text("a"), text("kept")).unwrap();
    first.set_value(text("a"), text("changed")).unwrap();
    assert_eq!(first.get_value(&text("a")).unwrap(), Some(text("changed")));
    assert_eq!(second.get_value(&text("a")).unwrap(), Some(text("kept")));
    first.unset_value(&text("a")).unwrap();
    assert_eq!(second.get_value(&text("a")).unwrap(), Some(text("kept")));
    let third: InMemorySessionData<String> = InMemorySessionData::new();
    first.set_value(text("a"), text("again")).unwrap();
    assert_eq!(third.get_value(&text("a")).unwrap(), None);
}

#[test]
fn bag_attribute_isolation() {
    let mut first: AttributeBag<String> = AttributeBag::new();
    let mut second: AttributeBag<String> = AttributeBag::new();
    second.set_value(text("a"), text("kept"));
    first.set_value(text("a"), text("changed"));
    assert_eq!(first.get_value("a"), Some(&text("changed")));
    assert_eq!(second.get_value("a"), Some(&text("kept")));
    first.unset_value("a");
    assert_eq!(second.get_value("a"), Some(&text("kept")));
}

#[test]
fn user_is_kept_under_the_reserved_name() {
    let data: InMemorySessionData<String> = InMemorySessionData::new();
    assert!(matches!(data.current_user(), Ok(None)));
    assert!(matches!(data.set_user(text("alice")), Ok(())));
    assert_eq!(data.current_user().unwrap(), Some(text("alice")));
    assert_eq!(
        data.get_value(&text("current_user")).unwrap(),
        Some(text("alice"))
    );
    data.set_user(text("bob")).unwrap();
    assert_eq!(data.current_user().unwrap(), Some(text("bob")));
    assert!(matches!(data.unset_user(), Ok(())));
    assert!(matches!(data.current_user(), Ok(None)));
    assert_eq!(data.get_value(&text("current_user")).unwrap(), None);
}

#[test]
fn user_and_attributes_share_the_bag() {
    let data: InMemorySessionData<String> = InMemorySessionData::new();
    data.set_value(text("current_user"), text("carol")).unwrap();
    data.set_value(text("name"), text("x")).unwrap();
    assert_eq!(data.current_user().unwrap(), Some(text("carol")));
    data.unset_user().unwrap();
    assert_eq!(data.get_value(&text("name")).unwrap(), Some(text("x")));
}

#[test]
fn user_through_a_shared_handle() {
    let data: Arc<InMemorySessionData<String>> = Arc::new(InMemorySessionData::new());
    let other = Arc::clone(&data);
    assert!(matches!(UserSession::set_user(&data, text("dave")), Ok(())));
    assert_eq!(UserSession::current_user(&other).unwrap(), Some(text("dave")));
    assert!(matches!(UserSession::unset_user(&other), Ok(())));
    assert_eq!(UserSession::current_user(&data).unwrap(), None);
}

#[test]
fn session_error_messages() {
    assert_eq!(
        SessionError::SessionNotFound.message(),
        "Session with given ID not found"
    );
    assert_eq!(
        SessionError::UnexpectedError(text("disk full")).message(),
        "Unexpected session error: disk full"
    );
    assert_eq!(
        SessionError::UnexpectedError(String::new()).message(),
        "Unexpected session error: "
    );
}

#[test]
fn bag_agrees_with_a_map() {
    let mut state = 23u64;
    let mut next = move |bound: u64| {
        state = state
            .wrapping_mul(6364136223846793005)
            .wrapping_add(1442695040888963407);
        (state >> 33) % bound
    };
    let mut bag: AttributeBag<u64> = AttributeBag::new();
    let data: InMemorySessionData<u64> = InMemorySessionData::new();
    let mut model = std::collections::HashMap::new();
    for step in 0..5000u64 {
        let name = format!("n{}", next(12));
        match next(3) {
            0 => {
                bag.set_value(name.clone(), step);
                data.set_value(name.clone(), step).unwrap();
                model.insert(name, step);
            }
            1 => {
                bag.unset_value(&name);
                data.unset_value(&name).unwrap();
                model.remove(&name);
            }
            _ => {
                assert_eq!(bag.get_value(&name), model.get(&name));
                assert_eq!(data.get_value(&name).unwrap(), model.get(&name).copied());
            }
        }
    }
    for name in (0..12).map(|n| format!("n{}", n)) {
        assert_eq!(bag.get_value(&name), model.get(&name));
        assert_eq!(data.get_value(&name).unwrap(), model.get(&name).copied());
    }
}

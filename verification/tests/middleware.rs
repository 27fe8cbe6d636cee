use author::middleware::{
    resolve, Action, AxumSessionError, Event, Rejection, Session, State,
};
use author::middleware::{serve, step};
use author::session::config::{SessionConfig, SessionCookie};
use author::session::in_memory::{InMemorySessionData, InMemorySessionStore};
use author::session::store::{SessionDataValueStorage, SessionStore};
use author::session::table::SessionTable;
use author::session::{ParseError, SessionError, SessionKey};
use cookie::{Key, SameSite};
use std::sync::Arc;

type Step = (State, Action<u128, &'static str>);
type Data = InMemorySessionData<String>;

const KEY: u128 = 0x67e55044_10b1_426f_9247_bb680e5fe0c8;
const KEY_TEXT: &str = "67e55044-10b1-426f-9247-bb680e5fe0c8";

fn set(data: &Data, key: &str, val: &str) {
    data.set_value(key.to_string(), val.to_string()).unwrap();
}

fn get(data: &Data, key: &str) -> Option<String> {
    data.get_value(&key.to_string()).unwrap()
}

fn config() -> SessionConfig {
    SessionConfig::new("sid", Key::generate(), SameSite::Strict, true)
}

fn carrying(text: &str) -> Event<u128, &'static str> {
    Event::Cookie(Some(text.to_string()))
}

fn failure() -> SessionError {
    SessionError::UnexpectedError(String::from("backend down"))
}

fn is_internal_error(step: &Step) -> bool {
    matches!(
        step,
        (State::Rejected, Action::Reject(Rejection::InternalError))
    )
}

fn assert_session_cookie(cookie: &SessionCookie, config: &SessionConfig, key: u128) {
    assert_eq!(cookie.name, config.cookie_name);
    assert_eq!(cookie.value, key.to_text());
    assert_eq!(cookie.same_site, config.same_site);
    assert_eq!(cookie.secure, config.secure);
    assert!(cookie.http_only);
    assert_eq!(cookie.path, "/");
}

#[test]
fn no_cookie_asks_for_a_new_session() {
    let moved: Step = step(&config(), State::Start, Event::Cookie(None));
    assert!(matches!(moved, (State::NoCookie, Action::Create)));
}

#[test]
fn well_formed_cookie_asks_for_its_session() {
    let moved: Step = step(&config(), State::Start, carrying(KEY_TEXT));
    assert!(matches!(moved, (State::Validating, Action::Load(KEY))));
    let moved: Step = step(
        &config(),
        State::Start,
        carrying("{67E55044-10B1-426F-9247-BB680E5FE0C8}"),
    );
    assert!(matches!(moved, (State::Validating, Action::Load(KEY))));
}

#[test]
fn malformed_cookie_asks_for_a_new_session() {
    for text in ["", "garbage", "67e55044-10b1-426f-9247-bb680e5fe0cz", "12345"] {
        let moved: Step = step(&config(), State::Start, carrying(text));
        assert!(matches!(moved, (State::Invalid, Action::Create)), "{:?}", text);
    }
}

#[test]
fn unreadable_jar_is_an_internal_error() {
    let moved: Step = step(&config(), State::Start, Event::JarUnreadable);
    assert!(is_internal_error(&moved));
    assert_eq!(Rejection::InternalError.status(), 500);
}

#[test]
fn found_session_is_attached_without_a_cookie() {
    let moved: Step = step(&config(), State::Validating, Event::Loaded(Ok(Some("data"))));
    match moved {
        (State::Attached, Action::Proceed(Session(session), None)) => assert_eq!(session, "data"),
        other => panic!("{:?}", other),
    }
}

#[test]
fn unknown_key_asks_for_a_new_session() {
    let moved: Step = step(&config(), State::Validating, Event::Loaded(Ok(None)));
    assert!(matches!(moved, (State::NotFound, Action::Create)));
}

#[test]
fn failed_lookup_is_an_internal_error() {
    let moved: Step = step(&config(), State::Validating, Event::Loaded(Err(failure())));
    assert!(is_internal_error(&moved));
    let moved: Step = step(
        &config(),
        State::Validating,
        Event::Loaded(Err(SessionError::SessionNotFound)),
    );
    assert!(is_internal_error(&moved));
}

#[test]
fn new_session_is_attached_with_its_cookie() {
    let config = config();
    for state in [State::NoCookie, State::Invalid, State::NotFound] {
        let moved: Step = step(&config, state, Event::Created(Ok((KEY, "fresh"))));
        match moved {
            (State::Attached, Action::Proceed(Session(session), Some(cookie))) => {
                assert_eq!(session, "fresh");
                assert_session_cookie(&cookie, &config, KEY);
                assert_eq!(cookie.name, "sid");
                assert_eq!(cookie.value, KEY_TEXT);
                assert_eq!(cookie.same_site, SameSite::Strict);
                assert!(cookie.secure);
            }
            other => panic!("{:?}", other),
        }
    }
}

#[test]
fn failed_creation_is_an_internal_error() {
    for state in [State::NoCookie, State::Invalid, State::NotFound] {
        let moved: Step = step(&config(), state, Event::Created(Err(failure())));
        assert!(is_internal_error(&moved));
    }
}

#[test]
fn cookie_follows_the_configuration() {
    let lax = SessionConfig::new("other_name", Key::generate(), SameSite::Lax, false);
    let moved: Step = step(&lax, State::NoCookie, Event::Created(Ok((1, "fresh"))));
    match moved {
        (State::Attached, Action::Proceed(_, Some(cookie))) => {
            assert_eq!(cookie.name, "other_name");
            assert_eq!(cookie.value, "00000000-0000-0000-0000-000000000001");
            assert_eq!(cookie.same_site, SameSite::Lax);
            assert!(!cookie.secure);
            assert!(cookie.http_only);
            assert_eq!(cookie.path, "/");
        }
        other => panic!("{:?}", other),
    }
    let open = SessionConfig::new("n", Key::generate(), SameSite::None, true);
    let built = SessionCookie::build(&open, String::from("v"));
    assert_eq!(built.name, "n");
    assert_eq!(built.value, "v");
    assert_eq!(built.same_site, SameSite::None);
    assert!(built.secure);
    assert!(built.http_only);
    assert_eq!(built.path, "/");
}

#[test]
fn events_out_of_turn_are_an_internal_error() {
    let config = config();
    let out_of_turn: Vec<(State, Event<u128, &'static str>)> = vec![
        (State::Start, Event::Loaded(Ok(Some("data")))),
        (State::Start, Event::Loaded(Ok(None))),
        (State::Start, Event::Created(Ok((KEY, "fresh")))),
        (State::Validating, Event::Cookie(None)),
        (State::Validating, carrying(KEY_TEXT)),
        (State::Validating, Event::Created(Ok((KEY, "fresh")))),
        (State::Validating, Event::JarUnreadable),
        (State::NoCookie, Event::Cookie(None)),
        (State::NoCookie, Event::Loaded(Ok(Some("data")))),
        (State::NoCookie, Event::JarUnreadable),
        (State::Invalid, Event::Loaded(Ok(None))),
        (State::NotFound, carrying(KEY_TEXT)),
        (State::Attached, Event::Cookie(None)),
        (State::Attached, Event::Loaded(Ok(Some("data")))),
        (State::Attached, Event::Created(Ok((KEY, "fresh")))),
        (State::Rejected, Event::Cookie(None)),
        (State::Rejected, Event::Created(Ok((KEY, "fresh")))),
        (State::Rejected, Event::JarUnreadable),
    ];
    for (state, event) in out_of_turn {
        let moved: Step = step(&config, state, event);
        assert!(is_internal_error(&moved), "{:?}", state);
    }
}

#[test]
fn middleware_new_session_flow() {
    let config = SessionConfig::default();
    let mut store: SessionTable<Data, u128> = SessionTable::new();
    let (Session(session), cookie) = resolve(&mut store, &config, None).unwrap();
    let cookie = cookie.unwrap();
    assert_eq!(cookie.name, "author_session_cookie");
    assert_eq!(cookie.same_site, SameSite::Strict);
    assert!(cookie.secure);
    assert!(cookie.http_only);
    assert_eq!(cookie.path, "/");
    let key = u128::parse(&cookie.value).unwrap();
    assert_eq!(cookie.value, key.to_text());
    assert_eq!(store.len(), 1);
    assert_eq!(get(&session, "name"), None);
    assert_eq!(get(&session, "current_user"), None);
    let (Session(again), none) = resolve(&mut store, &config, Some(cookie.value)).unwrap();
    assert!(none.is_none());
    assert!(Arc::ptr_eq(&session, &again));
}

#[test]
fn middleware_existing_session_flow() {
    let config = config();
    let mut store: SessionTable<Data, u128> = SessionTable::new();
    let (Session(first), cookie) = resolve(&mut store, &config, None).unwrap();
    let cookie = cookie.unwrap();
    set(&first, "name", "x");
    let (Session(attached), set) =
        resolve(&mut store, &config, Some(cookie.value.clone())).unwrap();
    assert!(set.is_none());
    assert_eq!(get(&attached, "name"), Some(String::from("x")));
    assert!(Arc::ptr_eq(&first, &attached));
    assert_eq!(store.len(), 1);
    let upper = cookie.value.to_uppercase();
    let (Session(same), set) = resolve(&mut store, &config, Some(upper)).unwrap();
    assert!(set.is_none());
    assert_eq!(get(&same, "name"), Some(String::from("x")));
    assert_eq!(store.len(), 1);
}

#[test]
fn malformed_cookie_tolerance() {
    let config = config();
    let mut store: SessionTable<Data, u128> = SessionTable::new();
    let (Session(known), _) = resolve(&mut store, &config, None).unwrap();
    set(&known, "name", "x");
    for text in ["", "not a key", "67e55044-10b1-426f-9247", "\u{1f36a}"] {
        let before = store.len();
        let (Session(session), cookie) =
            resolve(&mut store, &config, Some(text.to_string())).unwrap();
        let cookie = cookie.unwrap();
        let key = u128::parse(&cookie.value).unwrap();
        assert_session_cookie(&cookie, &config, key);
        assert_eq!(get(&session, "name"), None);
        assert!(!Arc::ptr_eq(&session, &known));
        assert_eq!(store.len(), before + 1);
    }
}

#[test]
fn unknown_key_gets_a_new_session() {
    let config = config();
    let mut store: SessionTable<Data, u128> = SessionTable::new();
    let (Session(known), first) = resolve(&mut store, &config, None).unwrap();
    set(&known, "name", "x");
    let known_key = u128::parse(&first.unwrap().value).unwrap();
    let foreign = known_key ^ 0xff;
    let (Session(session), cookie) =
        resolve(&mut store, &config, Some(foreign.to_text())).unwrap();
    let cookie = cookie.unwrap();
    let key = u128::parse(&cookie.value).unwrap();
    assert_ne!(key, foreign);
    assert_ne!(key, known_key);
    assert_session_cookie(&cookie, &config, key);
    assert_eq!(get(&session, "name"), None);
    assert_eq!(store.len(), 2);
}

#[test]
fn resolve_fails_where_no_session_can_be_made() {
    #[derive(Clone, Copy, PartialEq, Eq, Hash)]
    struct Stuck;
    impl SessionKey for Stuck {
        fn generate() -> Self {
            Stuck
        }
        fn parse(text: &str) -> Result<Self, ParseError> {
            if text == "stuck" {
                Ok(Stuck)
            } else {
                Err(ParseError::InvalidKeyFormat)
            }
        }
        fn to_text(&self) -> String {
            String::from("stuck")
        }
    }
    let config = config();
    let mut store: SessionTable<Data, Stuck> = SessionTable::new();
    let (Session(first), cookie) = resolve(&mut store, &config, None).unwrap();
    assert_eq!(cookie.unwrap().value, "stuck");
    let outcome = resolve(&mut store, &config, None);
    assert!(matches!(outcome, Err(Rejection::InternalError)));
    let outcome = resolve(&mut store, &config, Some(String::from("other")));
    assert!(matches!(outcome, Err(Rejection::InternalError)));
    assert_eq!(store.len(), 1);
    let (Session(found), none) =
        resolve(&mut store, &config, Some(String::from("stuck"))).unwrap();
    assert!(none.is_none());
    assert!(Arc::ptr_eq(&first, &found));
}

/// A store whose backend is down for lookups, for creations, or for both.
struct Flaky {
    inner: InMemorySessionStore<Data, u128>,
    loads: bool,
    creates: bool,
}

impl SessionStore for Flaky {
    type Session = Arc<Data>;
    type Key = u128;

    fn create_session(&self) -> Result<(u128, Arc<Data>), SessionError> {
        if self.creates {
            self.inner.create_session()
        } else {
            Err(failure())
        }
    }

    fn load_session(&self, key: &u128) -> Result<Option<Arc<Data>>, SessionError> {
        if self.loads {
            self.inner.load_session(key)
        } else {
            Err(failure())
        }
    }
}

#[test]
fn serve_new_session_flow() {
    let config = SessionConfig::default();
    let store: InMemorySessionStore<Data, u128> = InMemorySessionStore::new();
    let (Session(session), sent) = serve(&store, &config, None).unwrap();
    let sent = sent.unwrap();
    assert_eq!(sent.name, "author_session_cookie");
    assert_eq!(sent.same_site, SameSite::Strict);
    assert!(sent.secure);
    assert!(sent.http_only);
    assert_eq!(sent.path, "/");
    let key = u128::parse(&sent.value).unwrap();
    assert_eq!(sent.value, key.to_text());
    assert_eq!(store.len(), 1);
    assert_eq!(get(&session, "name"), None);
    let loaded = store.load_session(&key).unwrap().unwrap();
    assert!(Arc::ptr_eq(&session, &loaded));
}

#[test]
fn serve_existing_session_flow() {
    let config = config();
    let store: InMemorySessionStore<Data, u128> = InMemorySessionStore::new();
    let (key, made) = store.create_session().unwrap();
    set(&made, "name", "x");
    let (Session(attached), sent) = serve(&store, &config, Some(key.to_text())).unwrap();
    assert!(sent.is_none());
    assert_eq!(get(&attached, "name"), Some(String::from("x")));
    assert!(Arc::ptr_eq(&made, &attached));
    assert_eq!(store.len(), 1);
    set(&attached, "seen", "yes");
    let (Session(again), sent) = serve(&store, &config, Some(key.to_text())).unwrap();
    assert!(sent.is_none());
    assert_eq!(get(&again, "seen"), Some(String::from("yes")));
    assert_eq!(store.len(), 1);
}

#[test]
fn serve_malformed_cookie_tolerance() {
    let config = config();
    let store: InMemorySessionStore<Data, u128> = InMemorySessionStore::new();
    let (Session(without), first) = serve(&store, &config, None).unwrap();
    let (Session(with), second) =
        serve(&store, &config, Some(String::from("no key at all"))).unwrap();
    let first = first.unwrap();
    let second = second.unwrap();
    assert_session_cookie(&first, &config, u128::parse(&first.value).unwrap());
    assert_session_cookie(&second, &config, u128::parse(&second.value).unwrap());
    assert_ne!(first.value, second.value);
    assert_eq!(get(&without, "name"), None);
    assert_eq!(get(&with, "name"), None);
    assert!(!Arc::ptr_eq(&with, &without));
    assert_eq!(store.len(), 2);
}

#[test]
fn serve_gives_an_unknown_key_a_new_session() {
    let config = config();
    let store: InMemorySessionStore<Data, u128> = InMemorySessionStore::new();
    let (known, _) = store.create_session().unwrap();
    let foreign = known ^ 1;
    let (Session(session), sent) = serve(&store, &config, Some(foreign.to_text())).unwrap();
    let sent = sent.unwrap();
    let key = u128::parse(&sent.value).unwrap();
    assert_ne!(key, foreign);
    assert_ne!(key, known);
    assert_eq!(get(&session, "name"), None);
    assert_eq!(store.len(), 2);
}

#[test]
fn serve_turns_down_where_the_store_fails() {
    let config = config();
    let no_loads = Flaky {
        inner: InMemorySessionStore::new(),
        loads: false,
        creates: true,
    };
    let outcome = serve(&no_loads, &config, Some(String::from(KEY_TEXT)));
    assert!(matches!(outcome, Err(Rejection::InternalError)));
    assert_eq!(no_loads.inner.len(), 0);
    let (_, sent) = serve(&no_loads, &config, None).unwrap();
    assert!(sent.is_some());
    let (_, sent) = serve(&no_loads, &config, Some(String::from("junk"))).unwrap();
    assert!(sent.is_some());

    let no_creates = Flaky {
        inner: InMemorySessionStore::new(),
        loads: true,
        creates: false,
    };
    for cookie in [None, Some(String::from("junk")), Some(String::from(KEY_TEXT))] {
        let outcome = serve(&no_creates, &config, cookie);
        assert!(matches!(outcome, Err(Rejection::InternalError)));
    }
    let (key, made) = no_creates.inner.create_session().unwrap();
    let (Session(found), sent) = serve(&no_creates, &config, Some(key.to_text())).unwrap();
    assert!(sent.is_none());
    assert!(Arc::ptr_eq(&made, &found));
}

#[test]
fn session_of_a_request() {
    assert!(matches!(
        Session::from_attached(Some(Session(5u8))),
        Ok(Session(5))
    ));
    let none: Option<Session<u8>> = None;
    let rejection = Session::from_attached(none).unwrap_err();
    assert_eq!(rejection, Rejection::Forbidden);
    assert_eq!(rejection.status(), 403);
    assert_eq!(rejection.message(), "Forbidden");
}

#[test]
fn rejections_have_status_and_message() {
    assert_eq!(Rejection::Forbidden.status(), 403);
    assert_eq!(Rejection::Forbidden.message(), "Forbidden");
    assert_eq!(Rejection::InternalError.status(), 500);
    assert_eq!(Rejection::InternalError.message(), "Internal server error");
}

#[test]
fn errors_are_answered() {
    let inner: AxumSessionError<&str> = AxumSessionError::InnerServiceError("inner");
    assert_eq!(inner.rejection(), None);
    let not_found: AxumSessionError<&str> =
        AxumSessionError::SessionError(SessionError::SessionNotFound);
    assert_eq!(not_found.rejection(), Some(Rejection::Forbidden));
    let unexpected: AxumSessionError<&str> = AxumSessionError::SessionError(failure());
    assert_eq!(unexpected.rejection(), Some(Rejection::InternalError));
    let no_store: AxumSessionError<&str> = AxumSessionError::SessionStoreNotFound;
    assert_eq!(no_store.rejection(), Some(Rejection::InternalError));
    let no_config: AxumSessionError<&str> = AxumSessionError::SessionConfigNotFound;
    assert_eq!(no_config.rejection(), Some(Rejection::InternalError));
    let bad_key: AxumSessionError<&str> =
        AxumSessionError::UuidError(ParseError::InvalidKeyFormat);
    assert_eq!(bad_key.rejection(), Some(Rejection::InternalError));
}

#[test]
fn default_configuration() {
    let config = SessionConfig::default();
    assert_eq!(config.cookie_name, "author_session_cookie");
    assert_eq!(config.same_site, SameSite::Strict);
    assert!(config.secure);
    assert!(config.key.master().len() >= 32);
    let other = SessionConfig::default();
    assert!(config.key != other.key);
}

#[test]
fn chosen_configuration() {
    let key = Key::generate();
    let config = SessionConfig::new("my_cookie", key.clone(), SameSite::Lax, false);
    assert_eq!(config.cookie_name, "my_cookie");
    assert!(config.key == key);
    assert_eq!(config.same_site, SameSite::Lax);
    assert!(!config.secure);
    let copy = config.clone();
    assert_eq!(copy.cookie_name, "my_cookie");
    assert!(copy.key == key);
    assert_eq!(copy.same_site, SameSite::Lax);
    assert!(!copy.secure);
}

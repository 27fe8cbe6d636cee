//! The session middleware: which session a request gets.
//!
//! For each request the middleware goes through a small state machine. It
//! starts with the session cookie that the transport found, if any:
//!
//! ```text
//! Start --no cookie---------------------> NoCookie ---+
//! Start --cookie is no key--------------> Invalid ----+--created--> Attached
//! Start --cookie is a key--> Validating               |
//!          Validating --unknown key-----> NotFound ---+
//!          Validating --session found-------------------------> Attached
//! ```
//!
//! A request without a cookie, with a cookie that is no key, or with a key
//! that the store does not know gets a new session, and the response gets a
//! cookie with the new key. A key that the store does not know is no error: it
//! is treated like no key at all. A request whose key the store knows gets
//! that session and no new cookie. Only a failure of the transport to read the
//! cookies, or of the store to answer, turns the request down, with an
//! internal error; such a failure is never retried here.
//!
//! The machine does no work on the outside. [`step`] takes what happened and
//! says what to do next, the host does it and comes back with the result.
//! [`serve`] is the host for a store that answers at once, and [`resolve`] the
//! host for a table of sessions that it has to itself.

use crate::session::config::{session_cookie, SessionConfig, SessionCookie};
use crate::session::in_memory::InMemorySessionData;
use crate::session::store::{CreateNew, SessionStore};
use crate::session::table::{created, every_draw_taken, loaded, SessionTable};
use crate::session::{ParseError, SessionError, SessionKey};
use std::hash::Hash;
use std::sync::Arc;
use vstd::prelude::*;
use vstd::std_specs::hash::obeys_key_model;

verus! {

/// Why a request is turned down.
#[derive(Debug, Clone, Copy, PartialEq, Eq, Structural)]
pub enum Rejection {
    /// The request has no right to what it asks for.
    Forbidden,
    /// Something failed on the server's side.
    InternalError,
}

impl Rejection {
    /// The HTTP status that goes with the rejection.
    pub fn status(&self) -> (code: u16)
        ensures
            code == match *self {
                Rejection::Forbidden => 403u16,
                Rejection::InternalError => 500u16,
            },
    {
        match self {
            Rejection::Forbidden => 403,
            Rejection::InternalError => 500,
        }
    }

    /// The text of the response that goes with the rejection.
    pub fn message(&self) -> (text: &'static str)
        ensures
            text@ == match *self {
                Rejection::Forbidden => "Forbidden"@,
                Rejection::InternalError => "Internal server error"@,
            },
    {
        match self {
            Rejection::Forbidden => "Forbidden",
            Rejection::InternalError => "Internal server error",
        }
    }
}

/// The session that is attached to a request.
#[derive(Debug, Clone)]
pub struct Session<T = Arc<InMemorySessionData<String>>>(pub T);

impl<T> Session<T> {
    /// The session of a request, from what the middleware attached to it.
    ///
    /// A request that the middleware has not seen has no session and is
    /// forbidden.
    pub fn from_attached(attached: Option<Session<T>>) -> (found: Result<Session<T>, Rejection>)
        ensures
            found == match attached {
                Some(session) => Ok::<Session<T>, Rejection>(session),
                None => Err::<Session<T>, Rejection>(Rejection::Forbidden),
            },
    {
        match attached {
            Some(session) => Ok(session),
            None => Err(Rejection::Forbidden),
        }
    }
}

/// What can go wrong between the middleware and the service that it wraps.
#[derive(Debug)]
pub enum AxumSessionError<E> {
    /// The wrapped service failed.
    InnerServiceError(E),
    /// The session store failed, or knows no session for the key.
    SessionError(SessionError),
    /// No session store was set up.
    SessionStoreNotFound,
    /// No session configuration was set up.
    SessionConfigNotFound,
    /// The session key was malformed.
    UuidError(ParseError),
}

impl<E> AxumSessionError<E> {
    /// How the error is answered, unless it is the wrapped service's own: that
    /// one answers for itself.
    ///
    /// A key without a session is forbidden. Everything else is an internal
    /// error.
    pub fn rejection(&self) -> (answer: Option<Rejection>)
        ensures
            answer == match *self {
                AxumSessionError::InnerServiceError(_) => None::<Rejection>,
                AxumSessionError::SessionError(SessionError::SessionNotFound) => Some(
                    Rejection::Forbidden,
                ),
                _ => Some(Rejection::InternalError),
            },
    {
        match self {
            AxumSessionError::InnerServiceError(_) => None,
            AxumSessionError::SessionError(SessionError::SessionNotFound) => Some(
                Rejection::Forbidden,
            ),
            _ => Some(Rejection::InternalError),
        }
    }
}

/// Where the middleware stands with a request.
#[derive(Debug, Clone, Copy, PartialEq, Eq, Structural)]
pub enum State {
    /// Nothing is known of the request yet.
    Start,
    /// The request came without a session cookie. A new session is being
    /// made.
    NoCookie,
    /// The cookie held a key. The store is being asked for its session.
    Validating,
    /// The cookie held no key. A new session is being made.
    Invalid,
    /// The store knows no session for the key. A new session is being made.
    NotFound,
    /// The request has its session. Nothing more happens.
    Attached,
    /// The request was turned down. Nothing more happens.
    Rejected,
}

/// What happened on the outside.
#[derive(Debug)]
pub enum Event<K, S> {
    /// The transport looked for the session cookie and found this value, or
    /// none.
    Cookie(Option<String>),
    /// The transport could not read the request's cookies.
    JarUnreadable,
    /// The store answered a lookup.
    Loaded(Result<Option<S>, SessionError>),
    /// The store answered a request for a new session.
    Created(Result<(K, S), SessionError>),
}

/// What the host is to do next.
#[derive(Debug)]
pub enum Action<K, S> {
    /// Ask the store for the session under the key, and come back with
    /// [`Event::Loaded`].
    Load(K),
    /// Ask the store for a new session, and come back with
    /// [`Event::Created`].
    Create,
    /// Attach the session to the request and pass the request on. Where a
    /// cookie is given, set it on the response, whatever became of the request
    /// further down.
    Proceed(Session<S>, Option<SessionCookie>),
    /// Turn the request down.
    Reject(Rejection),
}

/// How many steps the machine can still take from `state`, at most.
pub open spec fn steps_left(state: State) -> nat {
    match state {
        State::Start => 3,
        State::Validating => 2,
        State::NoCookie | State::Invalid | State::NotFound => 1,
        State::Attached | State::Rejected => 0,
    }
}

/// Whether parsing `text` as a key can give `outcome`.
pub open spec fn parses<K: SessionKey>(text: Seq<char>, outcome: Result<K, ParseError>) -> bool {
    exists|t: &str| t@ == text && #[trigger] call_ensures(K::parse, (t,), outcome)
}

/// Whether `text` can be what is written for `key`.
pub open spec fn writes<K: SessionKey>(key: K, text: Seq<char>) -> bool {
    exists|t: String| t@ == text && #[trigger] call_ensures(K::to_text, (&key,), t)
}

/// Whether the action passes the request on with this session, and with a
/// cookie that hands `key` to the client under `config`.
pub open spec fn proceeds_with_new<K: SessionKey, S>(
    action: Action<K, S>,
    config: SessionConfig,
    key: K,
    session: S,
) -> bool {
    &&& action matches Action::Proceed(attached, Some(cookie))
    &&& attached.0 == session
    &&& exists|text: Seq<char>| #[trigger]
        writes(key, text) && cookie@ == session_cookie(config, text)
}

/// Whether the action passes the request on with this session and without a
/// cookie.
pub open spec fn proceeds_with_known<K, S>(action: Action<K, S>, session: S) -> bool {
    &&& action matches Action::Proceed(attached, None)
    &&& attached.0 == session
}

/// Whether the action turns the request down with an internal error.
pub open spec fn fails<K, S>(action: Action<K, S>) -> bool {
    action matches Action::Reject(Rejection::InternalError)
}

/// The machine: whether, in `state` and on `event`, it goes to `next` and asks
/// for `action`.
pub open spec fn moves<K: SessionKey, S>(
    config: SessionConfig,
    state: State,
    event: Event<K, S>,
    next: State,
    action: Action<K, S>,
) -> bool {
    match (state, event) {
        (State::Start, Event::Cookie(None)) => next == State::NoCookie && action is Create,
        (State::Start, Event::Cookie(Some(text))) => exists|outcome: Result<K, ParseError>| #[trigger]
            parses(text@, outcome) && match outcome {
                Ok(key) => next == State::Validating && action == Action::<K, S>::Load(key),
                Err(_) => next == State::Invalid && action is Create,
            },
        (State::Validating, Event::Loaded(Ok(Some(session)))) => next == State::Attached
            && proceeds_with_known(action, session),
        (State::Validating, Event::Loaded(Ok(None))) => next == State::NotFound
            && action is Create,
        (State::NoCookie, Event::Created(Ok((key, session))))
        | (State::Invalid, Event::Created(Ok((key, session))))
        | (State::NotFound, Event::Created(Ok((key, session)))) => next == State::Attached
            && proceeds_with_new(action, config, key, session),
        _ => next == State::Rejected && fails(action),
    }
}

fn on_cookie<K: SessionKey, S>(cookie: Option<String>) -> (moved: (State, Action<K, S>))
    ensures
        match cookie {
            None => moved.0 == State::NoCookie && moved.1 is Create,
            Some(text) => exists|outcome: Result<K, ParseError>| #[trigger]
                parses(text@, outcome) && match outcome {
                    Ok(key) => moved.0 == State::Validating && moved.1 == Action::<K, S>::Load(key),
                    Err(_) => moved.0 == State::Invalid && moved.1 is Create,
                },
        },
{
    match cookie {
        None => (State::NoCookie, Action::Create),
        Some(text) => {
            let outcome = K::parse(text.as_str());
            assert(parses(text@, outcome));
            match outcome {
                Ok(key) => (State::Validating, Action::Load(key)),
                Err(_) => (State::Invalid, Action::Create),
            }
        },
    }
}

fn on_created<K: SessionKey, S>(config: &SessionConfig, key: K, session: S) -> (moved: (
    State,
    Action<K, S>,
))
    ensures
        moved.0 == State::Attached,
        proceeds_with_new(moved.1, *config, key, session),
{
    let text = key.to_text();
    assert(writes(key, text@));
    let cookie = SessionCookie::build(config, text);
    (State::Attached, Action::Proceed(Session(session), Some(cookie)))
}

/// One step of the machine: takes the state and what happened, and gives the
/// next state and what to do.
///
/// An event that does not answer what the machine last asked for turns the
/// request down, as a failure of the store or of the transport does.
pub fn step<K: SessionKey, S>(config: &SessionConfig, state: State, event: Event<K, S>) -> (moved:
    (State, Action<K, S>))
    ensures
        moves(*config, state, event, moved.0, moved.1),
        steps_left(state) > 0 ==> steps_left(moved.0) < steps_left(state),
        moved.1 is Load ==> moved.0 == State::Validating,
        moved.1 is Create ==> steps_left(moved.0) == 1,
        moved.1 is Proceed <==> moved.0 == State::Attached,
        moved.1 is Reject <==> moved.0 == State::Rejected,
{
    match (state, event) {
        (State::Start, Event::Cookie(cookie)) => on_cookie(cookie),
        (State::Validating, Event::Loaded(Ok(Some(session)))) => (
            State::Attached,
            Action::Proceed(Session(session), None),
        ),
        (State::Validating, Event::Loaded(Ok(None))) => (State::NotFound, Action::Create),
        (State::NoCookie, Event::Created(Ok((key, session)))) => on_created(config, key, session),
        (State::Invalid, Event::Created(Ok((key, session)))) => on_created(config, key, session),
        (State::NotFound, Event::Created(Ok((key, session)))) => on_created(config, key, session),
        _ => (State::Rejected, Action::Reject(Rejection::InternalError)),
    }
}

/// Whether the cookie of a request can stand for `presented`: the key that it
/// parses as, or none where there is no cookie or it parses as no key.
pub open spec fn presents<K: SessionKey>(cookie: Option<String>, presented: Option<K>) -> bool {
    match cookie {
        None => presented is None,
        Some(text) => exists|outcome: Result<K, ParseError>| #[trigger]
            parses(text@, outcome) && presented == match outcome {
                Ok(key) => Some(key),
                Err(_) => None::<K>,
            },
    }
}

/// Whether `session` is a new, empty session that `after` holds under a key
/// that `before` did not hold, and `cookie` hands that key to the client.
pub open spec fn issued<K: SessionKey, S: CreateNew>(
    before: Map<K, Arc<S>>,
    after: Map<K, Arc<S>>,
    config: SessionConfig,
    session: Arc<S>,
    cookie: SessionCookie,
) -> bool {
    exists|key: K, text: Seq<char>|
        {
            &&& #[trigger] created(before, after, key, session)
            &&& call_ensures(S::new, (), *session)
            &&& #[trigger] writes(key, text)
            &&& cookie@ == session_cookie(config, text)
        }
}

/// What [`resolve`] does with a request, from the table before and after, the
/// settings and the request's cookie.
///
/// Where the cookie stands for a key that the table holds, the request gets
/// that session, no cookie is set and the table is as it was. In every other
/// case the request gets a new session and the cookie that goes with it. It
/// is turned down, with an internal error, only where the table could make no
/// session because every key that it drew was taken; then the table is as it
/// was.
pub open spec fn resolved<K: SessionKey, S: CreateNew>(
    before: Map<K, Arc<S>>,
    after: Map<K, Arc<S>>,
    config: SessionConfig,
    cookie: Option<String>,
    outcome: Result<(Session<Arc<S>>, Option<SessionCookie>), Rejection>,
) -> bool {
    exists|presented: Option<K>| #[trigger]
        presents(cookie, presented) && {
            let known = match presented {
                Some(key) => loaded(before, key),
                None => None,
            };
            match known {
                Some(handle) => {
                    &&& after == before
                    &&& outcome matches Ok((session, None))
                    &&& session.0 == handle
                },
                None => match outcome {
                    Ok((session, Some(sent))) => issued(before, after, config, session.0, sent),
                    Ok((_, None)) => false,
                    Err(rejection) => {
                        &&& rejection == Rejection::InternalError
                        &&& after == before
                        &&& every_draw_taken(before)
                    },
                },
            }
        }
}

/// Serves one request from a table of sessions: runs the machine from
/// [`State::Start`] to its end, and asks the table where the machine says so.
///
/// `cookie` is the value of the request's session cookie, if it has one.
/// Handed out are the session to attach to the request and, where the session
/// is new, the cookie to set on the response.
pub fn resolve<S, K>(
    table: &mut SessionTable<S, K>,
    config: &SessionConfig,
    cookie: Option<String>,
) -> (outcome: Result<(Session<Arc<S>>, Option<SessionCookie>), Rejection>) where
    S: CreateNew,
    K: SessionKey + Copy + Eq + Hash,

    ensures
        obeys_key_model::<K>() ==> resolved(old(table)@, final(table)@, *config, cookie, outcome),
{
    let (state, action) = step::<K, Arc<S>>(config, State::Start, Event::Cookie(cookie));
    let ghost presented: Option<K> = match action {
        Action::Load(key) => Some(key),
        _ => None,
    };
    assert(presents(cookie, presented));
    let (state, action) = match action {
        Action::Load(key) => {
            let found = table.load_session(&key);
            step(config, state, Event::Loaded(Ok(found)))
        },
        other => (state, other),
    };
    let (state, action) = match action {
        Action::Create => {
            let made = table.create_session();
            step(config, state, Event::Created(made))
        },
        other => (state, other),
    };
    match action {
        Action::Proceed(session, sent) => Ok((session, sent)),
        _ => Err(Rejection::InternalError),
    }
}

/// Whether the store can have answered the lookup of `key` with `found`.
pub open spec fn looks_up<St: SessionStore>(
    store: St,
    key: St::Key,
    found: Result<Option<St::Session>, SessionError>,
) -> bool {
    call_ensures(St::load_session, (&store, &key), found)
}

/// Whether the store can have answered the request for a new session with
/// `made`.
pub open spec fn makes<St: SessionStore>(
    store: St,
    made: Result<(St::Key, St::Session), SessionError>,
) -> bool {
    call_ensures(St::create_session, (&store,), made)
}

/// Whether the store was asked for a new session: the cookie stood for no
/// key, or for a key that the store did not know.
pub open spec fn asks_for_new<St: SessionStore>(store: St, cookie: Option<String>) -> bool {
    exists|presented: Option<St::Key>| #[trigger]
        presents(cookie, presented) && match presented {
            None => true,
            Some(key) => looks_up(store, key, Ok(None)),
        }
}

/// Whether `outcome` is a session that the store made when asked for a new
/// one, with the cookie that hands its key to the client, or the internal
/// error that goes with the store's failure to make one.
pub open spec fn served_new<St: SessionStore>(
    store: St,
    config: SessionConfig,
    outcome: Result<(Session<St::Session>, Option<SessionCookie>), Rejection>,
) -> bool {
    match outcome {
        Ok((session, Some(sent))) => exists|key: St::Key| #[trigger]
            makes(store, Ok((key, session.0))) && exists|text: Seq<char>| #[trigger]
                writes(key, text) && sent@ == session_cookie(config, text),
        Ok((_, None)) => false,
        Err(rejection) => rejection == Rejection::InternalError && exists|e: SessionError| #[trigger]
            makes(store, Err(e)),
    }
}

/// What [`serve`] does with a request, from the settings, the request's
/// cookie and what the store answered.
///
/// A session without a cookie is one that the store found under the key that
/// the cookie stood for. A session with a cookie is one that the store made
/// when asked for a new one, and the cookie hands its key to the client. The
/// request is turned down, with an internal error, only where the store
/// failed to answer.
pub open spec fn served<St: SessionStore>(
    store: St,
    config: SessionConfig,
    cookie: Option<String>,
    outcome: Result<(Session<St::Session>, Option<SessionCookie>), Rejection>,
) -> bool {
    match outcome {
        Ok((session, None)) => exists|key: St::Key| #[trigger]
            presents(cookie, Some(key)) && looks_up(store, key, Ok(Some(session.0))),
        Ok((_, Some(_))) => asks_for_new(store, cookie) && served_new(store, config, outcome),
        Err(rejection) => {
            ||| rejection == Rejection::InternalError && exists|key: St::Key, e: SessionError| #[trigger]
                presents(cookie, Some(key)) && #[trigger] looks_up(store, key, Err(e))
            ||| asks_for_new(store, cookie) && served_new(store, config, outcome)
        },
    }
}

fn serve_new<St: SessionStore>(store: &St, config: &SessionConfig, state: State) -> (outcome:
    Result<(Session<St::Session>, Option<SessionCookie>), Rejection>)
    requires
        steps_left(state) == 1,
    ensures
        served_new(*store, *config, outcome),
{
    let made = store.create_session();
    let ghost answer = made;
    assert(makes(*store, answer));
    let (_, action) = step::<St::Key, St::Session>(config, state, Event::Created(made));
    match action {
        Action::Proceed(session, sent) => {
            proof {
                let (key, new) = answer->Ok_0;
                assert(proceeds_with_new(action, *config, key, new));
                assert(makes(*store, Ok::<(St::Key, St::Session), SessionError>((key, session.0))));
                let text = choose|text: Seq<char>| #[trigger]
                    writes(key, text) && sent->Some_0@ == session_cookie(*config, text);
                assert(writes(key, text) && sent->Some_0@ == session_cookie(*config, text));
                let outcome: Result<(Session<St::Session>, Option<SessionCookie>), Rejection> = Ok(
                    (session, sent),
                );
                assert(outcome matches Ok((s, Some(c))) && s == session && c == sent->Some_0);
            }
            Ok((session, sent))
        },
        _ => {
            assert(answer == Err::<(St::Key, St::Session), SessionError>(answer->Err_0));
            Err(Rejection::InternalError)
        },
    }
}

/// Serves one request from a store: runs the machine from [`State::Start`] to
/// its end, and asks the store where the machine says so.
///
/// `cookie` is the value of the request's session cookie, if it has one.
/// Handed out are the session to attach to the request and, where the session
/// is new, the cookie to set on the response.
pub fn serve<St: SessionStore>(store: &St, config: &SessionConfig, cookie: Option<String>) -> (outcome:
    Result<(Session<St::Session>, Option<SessionCookie>), Rejection>)
    ensures
        served(*store, *config, cookie, outcome),
{
    let (state, action) = step::<St::Key, St::Session>(config, State::Start, Event::Cookie(cookie));
    match action {
        Action::Load(key) => {
            assert(presents(cookie, Some(key)));
            let found = store.load_session(&key);
            let ghost answer = found;
            assert(looks_up(*store, key, answer));
            let (state, action) = step::<St::Key, St::Session>(config, state, Event::Loaded(found));
            match action {
                Action::Proceed(session, sent) => {
                    assert(answer == Ok::<Option<St::Session>, SessionError>(Some(session.0)));
                    Ok((session, sent))
                },
                Action::Create => {
                    assert(answer == Ok::<Option<St::Session>, SessionError>(None));
                    assert(asks_for_new(*store, cookie));
                    serve_new(store, config, state)
                },
                _ => {
                    assert(answer == Err::<Option<St::Session>, SessionError>(answer->Err_0));
                    Err(Rejection::InternalError)
                },
            }
        },
        Action::Create => {
            assert(presents::<St::Key>(cookie, None));
            assert(asks_for_new(*store, cookie));
            serve_new(store, config, state)
        },
        _ => Err(Rejection::InternalError),
    }
}

/// Every step leaves the machine nearer to its end, and what it asks for goes
/// with where it stands: a lookup only while validating, a new session only
/// just before the end, and the request is passed on or turned down exactly
/// at the end. It is never turned down as forbidden, only for a failure on
/// the server's side.
pub proof fn lemma_step_goes_on<K: SessionKey, S>(
    config: SessionConfig,
    state: State,
    event: Event<K, S>,
    next: State,
    action: Action<K, S>,
)
    requires
        moves(config, state, event, next, action),
    ensures
        steps_left(state) > 0 ==> steps_left(next) < steps_left(state),
        action is Load ==> next == State::Validating,
        action is Create ==> steps_left(next) == 1,
        action is Proceed <==> next == State::Attached,
        action is Reject <==> next == State::Rejected,
        action is Reject ==> fails(action),
{
}

/// The machine comes to its end: whatever happens on the outside, after three
/// steps at the latest the request has its session or is turned down.
pub proof fn lemma_three_steps_end<K: SessionKey, S>(
    config: SessionConfig,
    events: (Event<K, S>, Event<K, S>, Event<K, S>),
    first: (State, Action<K, S>),
    second: (State, Action<K, S>),
    third: (State, Action<K, S>),
)
    requires
        moves(config, State::Start, events.0, first.0, first.1),
        moves(config, first.0, events.1, second.0, second.1),
        moves(config, second.0, events.2, third.0, third.1),
    ensures
        third.0 == State::Attached || third.0 == State::Rejected,
{
    lemma_step_goes_on(config, State::Start, events.0, first.0, first.1);
    lemma_step_goes_on(config, first.0, events.1, second.0, second.1);
    lemma_step_goes_on(config, second.0, events.2, third.0, third.1);
}

/// A request that comes without a session cookie gets a new session, and the
/// response gets a cookie that hands the session's key to the client.
pub proof fn lemma_new_session_flow<K: SessionKey, S>(
    config: SessionConfig,
    key: K,
    session: S,
    first: (State, Action<K, S>),
    second: (State, Action<K, S>),
)
    requires
        moves(config, State::Start, Event::<K, S>::Cookie(None), first.0, first.1),
        moves(config, first.0, Event::Created(Ok((key, session))), second.0, second.1),
    ensures
        first.1 is Create,
        second.0 == State::Attached,
        proceeds_with_new(second.1, config, key, session),
{
}

/// A request whose cookie is the text of a key that the store knows gets the
/// session under that key, and no cookie is set on the response.
pub proof fn lemma_existing_session_flow<S>(
    config: SessionConfig,
    text: String,
    key: u128,
    session: S,
    first: (State, Action<u128, S>),
    second: (State, Action<u128, S>),
)
    requires
        crate::session::key::parsed(text@) == Ok::<u128, ParseError>(key),
        moves(config, State::Start, Event::<u128, S>::Cookie(Some(text)), first.0, first.1),
        moves(config, first.0, Event::Loaded(Ok(Some(session))), second.0, second.1),
    ensures
        first.1 == Action::<u128, S>::Load(key),
        second.0 == State::Attached,
        proceeds_with_known(second.1, session),
{
}

/// A cookie that is no key is treated like no cookie at all: the request is
/// not turned down, a new session is asked for, and whatever the store
/// answers leads to the same end as it does for a request without a cookie.
pub proof fn lemma_malformed_cookie_flow<S>(
    config: SessionConfig,
    text: String,
    first: (State, Action<u128, S>),
    made: Result<(u128, S), SessionError>,
    second: (State, Action<u128, S>),
)
    requires
        crate::session::key::parsed(text@) is Err,
        moves(config, State::Start, Event::<u128, S>::Cookie(Some(text)), first.0, first.1),
    ensures
        first.0 == State::Invalid,
        first.1 is Create,
        moves(config, first.0, Event::Created(made), second.0, second.1) <==> moves(
            config,
            State::NoCookie,
            Event::Created(made),
            second.0,
            second.1,
        ),
{
}

/// A session in memory that was just made was made without attributes.
pub proof fn lemma_new_session_is_empty<V: Send + Sync>(data: InMemorySessionData<V>)
    requires
        call_ensures(<InMemorySessionData<V> as CreateNew>::new, (), data),
    ensures
        data.made_with() == Map::<Seq<char>, V>::empty(),
{
}

} // verus!

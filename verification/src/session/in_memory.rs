//! A session store and a session data container that live in memory and can
//! be shared.
//!
//! [`InMemorySessionStore`] is a [`SessionTable`] behind a lock, and
//! [`InMemorySessionData`] is an [`AttributeBag`] behind a lock. Each call
//! takes the lock, does its one operation on the table or the bag, and lets
//! the lock go: no caller finds a change half made, and no call holds the lock
//! for longer than its operation lasts. What the operation does is said, and
//! proved, at the table and the bag. What a call finds behind the lock depends
//! on what the other holders of the store or the session did before, so a
//! contract here says only what holds whatever it found.
//!
//! The locks are `parking_lot`'s. What this module believes of them is said
//! at the three functions that call into the crate.

use crate::session::bag::AttributeBag;
use crate::session::store::{new_shared, CreateNew, SessionDataValueStorage, SessionStore};
use crate::session::table::{SessionTable, KEY_ATTEMPTS};
use crate::session::{SessionError, SessionKey};
use parking_lot::Mutex;
use parking_lot::MutexGuard;
use std::hash::Hash;
use std::sync::Arc;
use vstd::prelude::*;
use vstd::std_specs::hash::obeys_key_model;

verus! {

/// The lock below `parking_lot::Mutex`.
#[verifier::external_type_specification]
#[verifier::external_body]
pub struct ExRawMutex(parking_lot::RawMutex);

/// `lock_api::Mutex`, which `parking_lot::Mutex` is a name for: a value that
/// can only be reached with the lock held.
#[verifier::external_type_specification]
#[verifier::external_body]
#[verifier::reject_recursive_types(R)]
#[verifier::reject_recursive_types(T)]
pub struct ExMutex<R, T: ?Sized>(parking_lot::lock_api::Mutex<R, T>);

/// A held lock: `parking_lot::MutexGuard`. The lock is let go when the value
/// is dropped.
#[verifier::external_body]
#[verifier::reject_recursive_types(T)]
struct Locked<'a, T> {
    guard: MutexGuard<'a, T>,
}

/// Calls `Mutex::new`: a lock around `value`, not held.
#[verifier::external_body]
fn behind_lock<T>(value: T) -> Mutex<T> {
    Mutex::new(value)
}

/// Calls `Mutex::lock`: waits until the lock is free and takes it.
///
/// Nothing is said of the value behind the lock: it is what the last holder
/// left. The call does not come back while the calling thread itself holds
/// the lock; no function of this module calls it with the lock held.
#[verifier::external_body]
fn lock<T>(mutex: &Mutex<T>) -> Locked<'_, T> {
    Locked { guard: mutex.lock() }
}

/// The value behind a held lock, by the guard's `DerefMut`.
#[verifier::external_body]
fn contents<'a, 'b, T>(locked: &'a mut Locked<'b, T>) -> &'a mut T {
    &mut *locked.guard
}

/// The attributes of one session, shared between the store and the requests
/// that belong to the session.
#[verifier::reject_recursive_types(V)]
pub struct InMemorySessionData<V = String> {
    values: Mutex<AttributeBag<V>>,
    made_with: Ghost<Map<Seq<char>, V>>,
}

impl<V> InMemorySessionData<V> {
    /// What the bag held when it was put behind the lock. What it holds now
    /// is known to whoever holds the lock, and to nobody else.
    pub closed spec fn made_with(&self) -> Map<Seq<char>, V> {
        self.made_with@
    }

    /// Session data without attributes.
    pub fn new() -> (data: Self)
        ensures
            data.made_with() == Map::<Seq<char>, V>::empty(),
    {
        let bag = AttributeBag::new();
        let ghost held = bag@;
        InMemorySessionData { values: behind_lock(bag), made_with: Ghost(held) }
    }
}

impl<V: Send + Sync> CreateNew for InMemorySessionData<V> {
    /// Session data without attributes.
    fn new() -> (data: Self)
        ensures
            data.made_with() == Map::<Seq<char>, V>::empty(),
    {
        InMemorySessionData::new()
    }
}

impl<V: Clone> SessionDataValueStorage<String, V> for InMemorySessionData<V> {
    /// With the lock held, sets the value under `key` by
    /// [`AttributeBag::set_value`]. Never fails.
    fn set_value(&self, key: String, val: V) -> (done: Result<(), SessionError>)
        ensures
            done is Ok,
    {
        let mut locked = lock(&self.values);
        let bag = contents(&mut locked);
        bag.set_value(key, val);
        Ok(())
    }

    /// With the lock held, removes the value under `key` by
    /// [`AttributeBag::unset_value`]. Never fails.
    fn unset_value(&self, key: &String) -> (done: Result<(), SessionError>)
        ensures
            done is Ok,
    {
        let mut locked = lock(&self.values);
        let bag = contents(&mut locked);
        bag.unset_value(key.as_str());
        Ok(())
    }

    /// With the lock held, copies the value under `key` that
    /// [`AttributeBag::get_value`] finds. Never fails.
    fn get_value(&self, key: &String) -> (got: Result<Option<V>, SessionError>)
        ensures
            got is Ok,
    {
        let mut locked = lock(&self.values);
        let bag = contents(&mut locked);
        match bag.get_value(key.as_str()) {
            Some(value) => Ok(Some(value.clone())),
            None => Ok(None),
        }
    }
}

/// A store that keeps its sessions in memory and hands out shared handles to
/// them.
#[verifier::reject_recursive_types(S)]
#[verifier::reject_recursive_types(K)]
pub struct InMemorySessionStore<S: CreateNew = InMemorySessionData<String>, K = u128> {
    sessions: Mutex<SessionTable<S, K>>,
    made_with: Ghost<Map<K, Arc<S>>>,
}

impl<S: CreateNew, K> InMemorySessionStore<S, K> {
    /// What the table held when it was put behind the lock. What it holds now
    /// is known to whoever holds the lock, and to nobody else.
    pub closed spec fn made_with(&self) -> Map<K, Arc<S>> {
        self.made_with@
    }

    /// A store without sessions.
    pub fn new() -> (store: Self)
        ensures
            store.made_with() == Map::<K, Arc<S>>::empty(),
    {
        let table = SessionTable::new();
        let ghost held = table@;
        InMemorySessionStore { sessions: behind_lock(table), made_with: Ghost(held) }
    }

    /// How many sessions the store holds at the time of the call.
    pub fn len(&self) -> usize {
        let mut locked = lock(&self.sessions);
        let table = contents(&mut locked);
        table.len()
    }
}

/// Whether the store can have answered `placed` when asked, with its lock
/// held, to bind `session` to `key`: `true` where it bound the session,
/// `false` where it held a session under `key` at the time.
pub closed spec fn places<S: CreateNew, K: SessionKey + Copy + Eq + Hash>(
    store: InMemorySessionStore<S, K>,
    key: K,
    session: Arc<S>,
    placed: bool,
) -> bool {
    call_ensures(InMemorySessionStore::<S, K>::place, (&store, key, session), placed)
}

/// Whether each of `draws` is a key that [`SessionKey::generate`] can have
/// drawn and that the store refused to bind `session` to.
pub open spec fn drawn_and_refused<S: CreateNew, K: SessionKey + Copy + Eq + Hash>(
    store: InMemorySessionStore<S, K>,
    draws: Seq<K>,
    session: Arc<S>,
) -> bool
    decreases draws.len(),
{
    draws.len() == 0 || {
        &&& call_ensures(K::generate, (), draws.last())
        &&& places(store, draws.last(), session, false)
        &&& drawn_and_refused(store, draws.drop_last(), session)
    }
}

/// Whether the store refused every one of the [`KEY_ATTEMPTS`] keys that were
/// drawn for a new session: the one way in which making a session fails.
pub open spec fn every_draw_refused<S: CreateNew, K: SessionKey + Copy + Eq + Hash>(
    store: InMemorySessionStore<S, K>,
) -> bool {
    exists|draws: Seq<K>, session: Arc<S>|
        {
            &&& draws.len() == KEY_ATTEMPTS
            &&& call_ensures(S::new, (), *session)
            &&& #[trigger] drawn_and_refused(store, draws, session)
        }
}

impl<S, K> InMemorySessionStore<S, K> where S: CreateNew, K: SessionKey + Copy + Eq + Hash {
    /// With the lock held, binds `session` to `key` by [`SessionTable::place`],
    /// unless the store holds a session under `key` at the time.
    ///
    /// Says whether the session was bound.
    fn place(&self, key: K, session: Arc<S>) -> (placed: bool)
        requires
            call_ensures(S::new, (), *session),
    {
        let mut locked = lock(&self.sessions);
        let table = contents(&mut locked);
        table.place(key, session)
    }
}

impl<S, K> SessionStore for InMemorySessionStore<S, K> where
    S: CreateNew,
    K: SessionKey + Copy + Eq + Hash + Send + Sync,
 {
    type Session = Arc<S>;

    type Key = K;

    /// Makes a new session and draws keys for it until the store binds it to
    /// one, up to [`KEY_ATTEMPTS`] times. The session is made and each key is
    /// drawn before the lock is taken; the lock is held only while the table
    /// looks the key up and, where it is free, binds the session to it. Fails
    /// only where the store refused every key that was drawn, each being
    /// taken at the time.
    fn create_session(&self) -> (outcome: Result<(K, Arc<S>), SessionError>)
        ensures
            match outcome {
                Ok((key, handle)) => {
                    &&& call_ensures(S::new, (), *handle)
                    &&& call_ensures(K::generate, (), key)
                    &&& places(*self, key, handle, true)
                },
                Err(e) => e is UnexpectedError && every_draw_refused(*self),
            },
    {
        let handle = new_shared::<S>();
        let mut attempt: usize = 0;
        let ghost mut draws: Seq<K> = Seq::empty();
        while attempt < KEY_ATTEMPTS
            invariant
                attempt <= KEY_ATTEMPTS,
                draws.len() == attempt,
                call_ensures(S::new, (), *handle),
                drawn_and_refused(*self, draws, handle),
            decreases KEY_ATTEMPTS - attempt,
        {
            let key = K::generate();
            let placed = self.place(key, handle.clone());
            assert(places(*self, key, handle, placed));
            if placed {
                return Ok((key, handle));
            }
            proof {
                assert(draws.push(key).drop_last() =~= draws);
                draws = draws.push(key);
            }
            attempt = attempt + 1;
        }
        Err(SessionError::UnexpectedError("no unused session key was found".to_owned()))
    }

    /// With the lock held, looks up the session under `key` by
    /// [`SessionTable::load_session`]. Never fails. A session that is found
    /// is one that the store made.
    fn load_session(&self, key: &K) -> (found: Result<Option<Arc<S>>, SessionError>)
        ensures
            found is Ok,
            obeys_key_model::<K>() ==> (found matches Ok(Some(handle)) ==> call_ensures(
                S::new,
                (),
                *handle,
            )),
    {
        let mut locked = lock(&self.sessions);
        let table = contents(&mut locked);
        Ok(table.load_session(key))
    }
}

} // verus!

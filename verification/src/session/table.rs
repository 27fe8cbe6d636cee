//! The sessions of a store, as a value of its own.
//!
//! A [`SessionTable`] maps keys to sessions. It changes through `&mut self`,
//! so whoever changes it has it to themselves. A store that several requests
//! share keeps its table behind a lock, see [`crate::session::in_memory`].

use crate::session::store::{new_shared, CreateNew};
use crate::session::{SessionError, SessionKey};
use std::collections::HashMap;
use std::hash::Hash;
use std::sync::Arc;
use vstd::prelude::*;
use vstd::std_specs::hash::obeys_key_model;

verus! {

/// How often [`SessionTable::create_session`] draws a key before it
/// gives up.
pub const KEY_ATTEMPTS: usize = 16;

/// The session under `key`, if there is one.
pub open spec fn loaded<K, H>(sessions: Map<K, H>, key: K) -> Option<H> {
    if sessions.contains_key(key) {
        Some(sessions[key])
    } else {
        None
    }
}

/// Whether `after` is `before` with one more session, `handle`, under a key
/// that `before` did not hold.
pub open spec fn created<K, H>(before: Map<K, H>, after: Map<K, H>, key: K, handle: H) -> bool {
    !before.contains_key(key) && after == before.insert(key, handle)
}

/// The sessions of a store: a hash map from keys to shared handles.
///
/// The table's view is the map from keys to handles. What the contracts say of
/// it holds for key types whose `Hash` and `Eq` follow the model of
/// `vstd::std_specs::hash::obeys_key_model`, as `u128` does.
///
/// A table holds no session but those that it made itself, each from
/// [`CreateNew::new`].
#[derive(Debug)]
pub struct SessionTable<S: CreateNew, K = u128> {
    sessions: HashMap<K, Arc<S>>,
}

/// Whether every session in `sessions` is one that [`CreateNew::new`] can have
/// made.
pub open spec fn all_made_new<S: CreateNew, K>(sessions: Map<K, Arc<S>>) -> bool {
    forall|key: K|
        sessions.contains_key(key) ==> call_ensures(S::new, (), *(#[trigger] sessions[key]))
}

impl<S: CreateNew, K> View for SessionTable<S, K> {
    type V = Map<K, Arc<S>>;

    closed spec fn view(&self) -> Map<K, Arc<S>> {
        self.sessions@
    }
}

impl<S: CreateNew, K> SessionTable<S, K> {
    #[verifier::type_invariant]
    spec fn made_here(&self) -> bool {
        obeys_key_model::<K>() ==> all_made_new(self.sessions@)
    }

    /// A table without sessions.
    pub fn new() -> (table: Self)
        ensures
            table@ == Map::<K, Arc<S>>::empty(),
    {
        SessionTable { sessions: HashMap::new() }
    }

    /// How many sessions the table holds.
    pub fn len(&self) -> (count: usize)
        ensures
            obeys_key_model::<K>() ==> count == self@.len(),
    {
        self.sessions.len()
    }
}

/// Whether each of `draws` is a key that [`SessionKey::generate`] can have
/// drawn and that `sessions` holds.
pub open spec fn drawn_and_taken<K: SessionKey, H>(draws: Seq<K>, sessions: Map<K, H>) -> bool
    decreases draws.len(),
{
    draws.len() == 0 || {
        &&& call_ensures(K::generate, (), draws.last())
        &&& sessions.contains_key(draws.last())
        &&& drawn_and_taken(draws.drop_last(), sessions)
    }
}

/// Whether every one of the [`KEY_ATTEMPTS`] draws of a key hit a key that
/// `sessions` holds: the one way in which making a session fails.
pub open spec fn every_draw_taken<K: SessionKey, H>(sessions: Map<K, H>) -> bool {
    exists|draws: Seq<K>| draws.len() == KEY_ATTEMPTS && #[trigger] drawn_and_taken(draws, sessions)
}

impl<S, K> SessionTable<S, K> where S: CreateNew, K: SessionKey + Copy + Eq + Hash {
    /// Binds `session`, which is new, to `key`, unless the key is taken.
    ///
    /// Says whether the session was bound. Where the table holds a session
    /// under `key` already, it is left as it was.
    pub(crate) fn place(&mut self, key: K, session: Arc<S>) -> (placed: bool)
        requires
            call_ensures(S::new, (), *session),
        ensures
            obeys_key_model::<K>() ==> if placed {
                created(old(self)@, final(self)@, key, session)
            } else {
                old(self)@.contains_key(key) && final(self)@ == old(self)@
            },
    {
        proof {
            use_type_invariant(&*self);
        }
        let mut sessions: HashMap<K, Arc<S>> = HashMap::new();
        std::mem::swap(&mut self.sessions, &mut sessions);
        let placed = if sessions.contains_key(&key) {
            false
        } else {
            sessions.insert(key, session);
            true
        };
        self.sessions = sessions;
        placed
    }

    /// Makes a new, empty session under `key`, unless the key is taken.
    ///
    /// Returns the handle of the new session, or `None` where the table holds
    /// a session under `key` already and is left as it was.
    pub fn open_session(&mut self, key: K) -> (opened: Option<Arc<S>>)
        ensures
            obeys_key_model::<K>() ==> match opened {
                Some(handle) => created(old(self)@, final(self)@, key, handle) && call_ensures(
                    S::new,
                    (),
                    *handle,
                ),
                None => old(self)@.contains_key(key) && final(self)@ == old(self)@,
            },
    {
        let handle = new_shared::<S>();
        if self.place(key, handle.clone()) {
            Some(handle)
        } else {
            None
        }
    }

    /// Makes a new, empty session under a key that the table did not hold.
    ///
    /// Draws keys until one is free, up to [`KEY_ATTEMPTS`] times. A key that
    /// is handed out is never one that the table held before the call. The
    /// call fails only where every one of its draws hit a key that the table
    /// holds: then the table is left as it was and the error is
    /// [`SessionError::UnexpectedError`]. On a table without sessions it
    /// therefore never fails.
    pub fn create_session(&mut self) -> (outcome: Result<(K, Arc<S>), SessionError>)
        ensures
            obeys_key_model::<K>() ==> match outcome {
                Ok((key, handle)) => {
                    &&& created(old(self)@, final(self)@, key, handle)
                    &&& call_ensures(S::new, (), *handle)
                    &&& call_ensures(K::generate, (), key)
                },
                Err(e) => {
                    &&& e is UnexpectedError
                    &&& final(self)@ == old(self)@
                    &&& every_draw_taken(old(self)@)
                },
            },
    {
        let mut attempt: usize = 0;
        let ghost mut draws: Seq<K> = Seq::empty();
        while attempt < KEY_ATTEMPTS
            invariant
                attempt <= KEY_ATTEMPTS,
                draws.len() == attempt,
                obeys_key_model::<K>() ==> self@ == old(self)@,
                obeys_key_model::<K>() ==> drawn_and_taken(draws, old(self)@),
            decreases KEY_ATTEMPTS - attempt,
        {
            let key = K::generate();
            match self.open_session(key) {
                Some(handle) => {
                    return Ok((key, handle));
                },
                None => {},
            }
            proof {
                assert(draws.push(key).drop_last() =~= draws);
                draws = draws.push(key);
            }
            attempt = attempt + 1;
        }
        Err(SessionError::UnexpectedError("no unused session key was found".to_owned()))
    }

    /// The handle of the session under `key`, if there is one. The table is
    /// left as it is. A session that is found is one that the table made.
    pub fn load_session(&self, key: &K) -> (found: Option<Arc<S>>)
        ensures
            obeys_key_model::<K>() ==> found == loaded(self@, *key),
            obeys_key_model::<K>() ==> (found matches Some(handle) ==> call_ensures(
                S::new,
                (),
                *handle,
            )),
    {
        proof {
            use_type_invariant(self);
        }
        match self.sessions.get(key) {
            Some(handle) => Some(handle.clone()),
            None => None,
        }
    }
}

/// A session that was just created is found under its key, and the handle
/// that is found is the one that was handed out.
pub proof fn lemma_load_after_create<K, H>(before: Map<K, H>, after: Map<K, H>, key: K, handle: H)
    requires
        created(before, after, key, handle),
    ensures
        loaded(after, key) == Some(handle),
{
}

/// Creating a session leaves every other session where and what it was.
pub proof fn lemma_create_keeps_sessions<K, H>(
    before: Map<K, H>,
    after: Map<K, H>,
    key: K,
    handle: H,
    other: K,
)
    requires
        created(before, after, key, handle),
        before.contains_key(other),
    ensures
        other != key,
        loaded(after, other) == loaded(before, other),
{
}

/// Whether `tables` are the states of a table before and after each of a run
/// of creations that handed out `keys` and `handles`, in that order.
pub open spec fn creations<K, H>(tables: Seq<Map<K, H>>, keys: Seq<K>, handles: Seq<H>) -> bool {
    &&& tables.len() == keys.len() + 1
    &&& handles.len() == keys.len()
    &&& forall|i: int|
        0 <= i < keys.len() ==> created(tables[i], #[trigger] tables[i + 1], keys[i], handles[i])
}

proof fn lemma_creations_keep_keys<K, H>(
    tables: Seq<Map<K, H>>,
    keys: Seq<K>,
    handles: Seq<H>,
    i: int,
    j: int,
)
    requires
        creations(tables, keys, handles),
        0 <= i < j <= keys.len(),
    ensures
        tables[j].contains_key(keys[i]),
    decreases j - i,
{
    assert(created(tables[i], tables[i + 1], keys[i], handles[i]));
    if j > i + 1 {
        lemma_creations_keep_keys(tables, keys, handles, i, j - 1);
        assert(created(tables[j - 1], tables[j - 1 + 1], keys[j - 1], handles[j - 1]));
    }
}

/// However many sessions are created one after another, no key is handed out
/// twice.
pub proof fn lemma_created_keys_distinct<K, H>(
    tables: Seq<Map<K, H>>,
    keys: Seq<K>,
    handles: Seq<H>,
)
    requires
        creations(tables, keys, handles),
    ensures
        forall|i: int, j: int| 0 <= i < j < keys.len() ==> keys[i] != keys[j],
{
    assert forall|i: int, j: int| 0 <= i < j < keys.len() implies keys[i] != keys[j] by {
        lemma_creations_keep_keys(tables, keys, handles, i, j);
        assert(created(tables[j], tables[j + 1], keys[j], handles[j]));
    }
}

} // verus!

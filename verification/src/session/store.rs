//! The interfaces of a session store and of the data that it keeps.
//!
//! A store maps keys to sessions. What a session is, the store decides: the
//! store in [`crate::session::in_memory`] hands out shared handles to data of
//! any kind that can be made from nothing. Data that holds attributes by name
//! has the interface [`SessionDataValueStorage`].
//!
//! Every method takes `&self`: a store and a session are shared between the
//! requests that are served at the same time, and see to it themselves that
//! no caller finds a change half made.

use crate::session::{SessionError, SessionKey};
use std::hash::Hash;
use std::sync::Arc;
use vstd::prelude::*;

verus! {

/// A mapping from session keys to sessions.
///
/// `create_session` owes its callers a key that the store did not hold
/// before, bound to a new, empty session; `load_session` owes them the session
/// bound to the key, or `None` where there is none, and leaves the store as it
/// is. A store that fails, as one on a database may, says so with
/// [`SessionError::UnexpectedError`].
pub trait SessionStore: Send {
    /// What the store hands out for a session.
    type Session;

    /// The keys of the store.
    type Key: SessionKey;

    /// Makes a session under a key that is new to the store.
    fn create_session(&self) -> Result<(Self::Key, Self::Session), SessionError>;

    /// Looks up the session under `key`.
    fn load_session(&self, key: &Self::Key) -> Result<Option<Self::Session>, SessionError>;
}

/// Session data that holds values by key.
///
/// The last value set under a key is the one that is got, until the key is
/// unset.
pub trait SessionDataValueStorage<K, V> where K: Hash + Eq {
    /// Sets the value under `key`, in place of any that was there.
    fn set_value(&self, key: K, val: V) -> Result<(), SessionError>;

    /// Removes the value under `key`, if there is one.
    fn unset_value(&self, key: &K) -> Result<(), SessionError>;

    /// A copy of the value under `key`, if there is one.
    fn get_value(&self, key: &K) -> Result<Option<V>, SessionError>;
}

/// Data that can be made from nothing: the state of a session that nothing has
/// happened to yet.
pub trait CreateNew: Send + Sync + Sized {
    /// The data of a new session.
    fn new() -> Self;
}

/// A shared handle to new data: what [`CreateNew::new`] makes, behind an
/// `Arc`.
pub fn new_shared<S: CreateNew>() -> (made: Arc<S>)
    ensures
        call_ensures(S::new, (), *made),
{
    Arc::new(S::new())
}

impl<S: CreateNew> CreateNew for Arc<S> {
    /// A shared handle to new data, by [`new_shared`].
    ///
    /// The method carries no contract of its own: in a contract on this impl
    /// Verus reads `Self::new` as `Arc::new`, which takes an argument, and
    /// refuses it. What it returns is said at [`new_shared`].
    fn new() -> Self {
        new_shared()
    }
}

} // verus!

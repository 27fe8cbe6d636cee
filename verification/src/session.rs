//! Sessions: server-side state for a client that holds an opaque key.
//!
//! [`key`] has the keys and their text form, [`config`] what can be set for
//! the session cookie, and [`store`] the interfaces of stores and of the data
//! that they keep. [`table`] and [`bag`] are what a store and a session hold,
//! as plain values with exact contracts, and [`in_memory`] puts each behind a
//! lock, as a store and a session data container that requests can share.

use vstd::prelude::*;

pub mod bag;
pub mod config;
pub mod in_memory;
pub mod key;
pub mod store;
pub mod table;

verus! {

/// What can go wrong with a session.
#[derive(Debug)]
pub enum SessionError {
    /// No session goes by the key that was given.
    SessionNotFound,
    /// The store behind the sessions failed. The text says how.
    UnexpectedError(String),
}

impl SessionError {
    /// The message that goes with the error.
    pub fn message(&self) -> (text: String)
        ensures
            self is SessionNotFound ==> text@ == "Session with given ID not found"@,
            self matches SessionError::UnexpectedError(cause) ==> text@
                == "Unexpected session error: "@ + cause@,
    {
        match self {
            SessionError::SessionNotFound => "Session with given ID not found".to_owned(),
            SessionError::UnexpectedError(cause) => "Unexpected session error: ".to_owned().concat(
                cause.as_str(),
            ),
        }
    }
}

/// Why a text is not a session key.
#[derive(Debug, Clone, Copy, PartialEq, Eq, Structural)]
pub enum ParseError {
    /// The text has none of the forms in which a key is written.
    InvalidKeyFormat,
}

/// A key that a store can make, and that travels to the client and back as
/// text.
///
/// An implementation owes its callers that `parse` gives back the key that
/// `to_text` was called on. Nothing here can hold an implementation to that;
/// the keys of this library, `u128`, are proved to do so in [`key`].
pub trait SessionKey: Sized {
    /// A new key, fit to be given to a client.
    fn generate() -> Self;

    /// The key that `text` stands for.
    fn parse(text: &str) -> Result<Self, ParseError>;

    /// The text that stands for the key.
    fn to_text(&self) -> String;
}

/// A session that knows its subject without being asked for it.
pub trait SessionSubject<Subject> {
    /// The subject of the session.
    fn subject() -> Subject;
}

} // verus!

//! The current subject of a session.
//!
//! A session can hold the user that it belongs to. [`UserSession`] is the
//! interface for that, and the data in memory keeps the user among its
//! attributes, under a reserved name. [`User`] is what a handler asks for
//! when it wants the user of the request: in the required mode a request
//! without a user is forbidden, in the optional mode it goes on as anonymous.

use crate::middleware::{Rejection, Session};
use crate::session::bag::AttributeBag;
use crate::session::in_memory::InMemorySessionData;
use crate::session::store::SessionDataValueStorage;
use crate::session::SessionError;
use std::marker::PhantomData;
use std::sync::Arc;
use vstd::prelude::*;

verus! {

/// A session that can hold the user that it belongs to.
pub trait UserSession {
    /// What a user is.
    type User;

    /// Makes `user` the user of the session.
    fn set_user(&self, user: Self::User) -> Result<(), SessionError>;

    /// Leaves the session without a user.
    fn unset_user(&self) -> Result<(), SessionError>;

    /// A copy of the user of the session, if it has one.
    fn current_user(&self) -> Result<Option<Self::User>, SessionError>;
}

/// The name of the attribute that holds the user.
pub open spec fn user_key() -> Seq<char> {
    "current_user"@
}

impl<U> AttributeBag<U> {
    /// Makes `user` the user: sets the attribute of the reserved name.
    pub fn set_user(&mut self, user: U)
        ensures
            final(self)@ == old(self)@.insert(user_key(), user),
    {
        self.set_value("current_user".to_owned(), user)
    }

    /// Leaves the bag without a user: removes the attribute of the reserved
    /// name.
    pub fn unset_user(&mut self)
        ensures
            final(self)@ == old(self)@.remove(user_key()),
    {
        self.unset_value("current_user")
    }

    /// The user, if there is one: the attribute of the reserved name.
    pub fn current_user(&self) -> (user: Option<&U>)
        ensures
            match user {
                Some(u) => self@.contains_key(user_key()) && self@[user_key()] == *u,
                None => !self@.contains_key(user_key()),
            },
    {
        self.get_value("current_user")
    }
}

/// Whether `done` can be what the data answers when `user` is set under the
/// reserved name.
pub open spec fn sets_user<U: Clone>(
    data: InMemorySessionData<U>,
    user: U,
    done: Result<(), SessionError>,
) -> bool {
    exists|name: String|
        name@ == user_key() && #[trigger] call_ensures(
            <InMemorySessionData<U> as SessionDataValueStorage<String, U>>::set_value,
            (&data, name, user),
            done,
        )
}

/// Whether `done` can be what the data answers when the reserved name is
/// unset.
pub open spec fn unsets_user<U: Clone>(
    data: InMemorySessionData<U>,
    done: Result<(), SessionError>,
) -> bool {
    exists|name: String|
        name@ == user_key() && #[trigger] call_ensures(
            <InMemorySessionData<U> as SessionDataValueStorage<String, U>>::unset_value,
            (&data, &name),
            done,
        )
}

/// Whether `got` can be what the data answers when asked for the value under
/// the reserved name.
pub open spec fn gets_user<U: Clone>(
    data: InMemorySessionData<U>,
    got: Result<Option<U>, SessionError>,
) -> bool {
    exists|name: String|
        name@ == user_key() && #[trigger] call_ensures(
            <InMemorySessionData<U> as SessionDataValueStorage<String, U>>::get_value,
            (&data, &name),
            got,
        )
}

impl<U: Clone> UserSession for InMemorySessionData<U> {
    type User = U;

    /// Sets the attribute of the reserved name to `user`, by `set_value`.
    /// Never fails.
    fn set_user(&self, user: U) -> (done: Result<(), SessionError>)
        ensures
            done is Ok,
            sets_user(*self, user, done),
    {
        let name = "current_user".to_owned();
        let done = self.set_value(name, user);
        assert(sets_user(*self, user, done));
        done
    }

    /// Removes the attribute of the reserved name, by `unset_value`. Never
    /// fails.
    fn unset_user(&self) -> (done: Result<(), SessionError>)
        ensures
            done is Ok,
            unsets_user(*self, done),
    {
        let name = "current_user".to_owned();
        let done = self.unset_value(&name);
        assert(unsets_user(*self, done));
        done
    }

    /// A copy of the attribute of the reserved name, if it is set, by
    /// `get_value`. Never fails.
    fn current_user(&self) -> (got: Result<Option<U>, SessionError>)
        ensures
            got is Ok,
            gets_user(*self, got),
    {
        let name = "current_user".to_owned();
        let got = self.get_value(&name);
        assert(gets_user(*self, got));
        got
    }
}

impl<Sess: UserSession> UserSession for Arc<Sess> {
    type User = Sess::User;

    /// Whatever the session behind the handle does.
    fn set_user(&self, user: Sess::User) -> (done: Result<(), SessionError>)
        ensures
            call_ensures(Sess::set_user, (&**self, user), done),
    {
        (**self).set_user(user)
    }

    /// Whatever the session behind the handle does.
    fn unset_user(&self) -> (done: Result<(), SessionError>)
        ensures
            call_ensures(Sess::unset_user, (&**self,), done),
    {
        (**self).unset_user()
    }

    /// Whatever the session behind the handle answers.
    fn current_user(&self) -> (got: Result<Option<Sess::User>, SessionError>)
        ensures
            call_ensures(Sess::current_user, (&**self,), got),
    {
        (**self).current_user()
    }
}

/// The user of a request.
#[derive(Debug)]
pub struct User<U: Clone, Sess>(pub U, pub PhantomData<Sess>);

/// The user of a request, known to hold a role.
#[derive(Debug, Clone)]
pub struct UserWithRole<U: Clone>(pub U);

/// The user for a handler that needs one, from what the session answered: the
/// user if the session has one, else the request is forbidden. A session that
/// fails to answer forbids too.
pub open spec fn required_user<U>(answer: Result<Option<U>, SessionError>) -> Result<U, Rejection> {
    match answer {
        Ok(Some(user)) => Ok(user),
        _ => Err(Rejection::Forbidden),
    }
}

/// The user for a handler that can do without, from what the session
/// answered: the user if the session has one, none if it has none. Only a
/// session that fails to answer forbids.
pub open spec fn optional_user<U>(answer: Result<Option<U>, SessionError>) -> Result<
    Option<U>,
    Rejection,
> {
    match answer {
        Ok(found) => Ok(found),
        Err(_) => Err(Rejection::Forbidden),
    }
}

impl<U: Clone, Sess> User<U, Sess> {
    /// The user that a handler needs, from what the session answered when
    /// asked for its user.
    pub fn required(answer: Result<Option<U>, SessionError>) -> (found: Result<Self, Rejection>)
        ensures
            match required_user(answer) {
                Ok(user) => found matches Ok(wrapped) && wrapped.0 == user,
                Err(rejection) => found matches Err(r) && r == rejection,
            },
    {
        match answer {
            Ok(Some(user)) => Ok(User(user, PhantomData)),
            _ => Err(Rejection::Forbidden),
        }
    }

    /// The user that a handler can do without, from what the session answered
    /// when asked for its user.
    pub fn optional(answer: Result<Option<U>, SessionError>) -> (found: Result<
        Option<Self>,
        Rejection,
    >)
        ensures
            match optional_user(answer) {
                Ok(Some(user)) => found matches Ok(Some(wrapped)) && wrapped.0 == user,
                Ok(None) => found matches Ok(None),
                Err(rejection) => found matches Err(r) && r == rejection,
            },
    {
        match answer {
            Ok(Some(user)) => Ok(Some(User(user, PhantomData))),
            Ok(None) => Ok(None),
            Err(_) => Err(Rejection::Forbidden),
        }
    }
}

impl<U: Clone, Sess: UserSession<User = U>> User<U, Sess> {
    /// The user of a request for a handler that needs one.
    ///
    /// `attached` is the session that the middleware attached to the request.
    /// A request without a session, or with a session without a user, is
    /// forbidden.
    pub fn from_session(attached: Option<&Session<Sess>>) -> (found: Result<Self, Rejection>)
        ensures
            match attached {
                None => found matches Err(r) && r == Rejection::Forbidden,
                Some(session) => exists|answer: Result<Option<U>, SessionError>|
                    #[trigger] call_ensures(Sess::current_user, (&session.0,), answer)
                        && match required_user(answer) {
                        Ok(user) => found matches Ok(wrapped) && wrapped.0 == user,
                        Err(rejection) => found matches Err(r) && r == rejection,
                    },
            },
    {
        match attached {
            None => Err(Rejection::Forbidden),
            Some(session) => User::required(session.0.current_user()),
        }
    }

    /// The user of a request for a handler that can do without.
    ///
    /// `attached` is the session that the middleware attached to the request.
    /// A request without a session, or with a session without a user, has no
    /// user.
    pub fn optional_from_session(attached: Option<&Session<Sess>>) -> (found: Result<
        Option<Self>,
        Rejection,
    >)
        ensures
            match attached {
                None => found matches Ok(None),
                Some(session) => exists|answer: Result<Option<U>, SessionError>|
                    #[trigger] call_ensures(Sess::current_user, (&session.0,), answer)
                        && match optional_user(answer) {
                        Ok(Some(user)) => found matches Ok(Some(wrapped)) && wrapped.0 == user,
                        Ok(None) => found matches Ok(None),
                        Err(rejection) => found matches Err(r) && r == rejection,
                    },
            },
    {
        match attached {
            None => Ok(None),
            Some(session) => User::optional(session.0.current_user()),
        }
    }
}

} // verus!

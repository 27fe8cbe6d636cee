//! Building blocks for protecting HTTP resources on the server side.
//!
//! Two parts cooperate. The session part keeps server-side state for a client
//! that holds an opaque key: [`session`] has the keys, the configuration and
//! the stores, [`middleware`] decides for each request which session it gets,
//! and [`user`] reads the current subject out of a session. The authorisation
//! part decides whether a subject may perform an action on a resource: the
//! traits below say what a resource, a subject and a policy are, and [`rbac`]
//! has the role-based policies.
//!
//! Nothing here does I/O. What the middleware needs from the outside, the
//! request's cookie and the answers of a store that may sit on a database, is
//! handed to it as plain values.

use vstd::prelude::*;

pub mod middleware;
pub mod rbac;
pub mod session;
pub mod user;

verus! {

/// Why an authorisation request was turned down.
#[derive(Debug, Clone, Copy, PartialEq, Eq, Structural)]
pub enum Error {
    /// The subject may not perform the action on the resource.
    Forbidden,
}

impl Error {
    /// The message that goes with the error.
    pub fn message(&self) -> (text: &'static str)
        ensures
            text@ == "Forbidden"@,
    {
        "Forbidden"
    }
}

/// A resource that is only handed out once a policy has allowed it.
pub struct ProtectedResource<R> {
    resource: R,
}

impl<R> ProtectedResource<R> {
    /// Puts `resource` under protection.
    pub fn new(resource: R) -> (protected: Self)
        ensures
            protected@ == resource,
    {
        ProtectedResource { resource }
    }

    /// The resource itself, for a caller that holds the policy's decision.
    ///
    /// `decision` is what a policy answered for this resource: the resource
    /// comes out if and only if the policy allowed the action.
    pub fn release(self, decision: Result<(), Error>) -> (released: Result<R, Error>)
        ensures
            released == match decision {
                Ok(()) => Ok::<R, Error>(self@),
                Err(e) => Err::<R, Error>(e),
            },
    {
        match decision {
            Ok(()) => Ok(self.resource),
            Err(e) => Err(e),
        }
    }
}

impl<R> View for ProtectedResource<R> {
    type V = R;

    closed spec fn view(&self) -> R {
        self.resource
    }
}

/// Something that can be told apart from others of its kind.
pub trait Object {
    /// What identifies the object.
    type Identifier: std::hash::Hash + Eq;

    /// The object's identifier.
    fn identifier(&self) -> Self::Identifier;
}

/// Something that actions are performed on.
pub trait Resource {
    /// The actions that the resource knows.
    type Action: std::hash::Hash + Eq;
}

/// Someone who performs actions.
pub trait Subject {
}

/// A rule that allows or denies an action of a subject on a resource.
///
/// `Ok(())` allows, `Err(Error::Forbidden)` denies. A policy that does not
/// say otherwise denies everything.
pub trait Policy<Res, Subj> where Res: Resource, Subj: Subject {
    /// Decides whether `subject` may perform `action` on `resource`.
    fn authorise(&self, resource: &Res, subject: &Subj, action: &Res::Action) -> (decision: Result<
        (),
        Error,
    >)
        default_ensures
            decision == Err::<(), Error>(Error::Forbidden),
    {
        Err(Error::Forbidden)
    }
}

} // verus!

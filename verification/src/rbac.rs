//! Role-based access control.
//!
//! A resource names, for each action, the roles that may perform it. A subject
//! holds roles. A policy allows an action when the subject holds at least one
//! of the roles that the resource names for it, and denies it otherwise.
//!
//! Roles come in two dimensions that never mix. Global roles belong to a
//! subject whatever the resource; resource-scoped roles are the roles that a
//! subject has towards one particular resource. [`GlobalRbacPolicy`] looks at
//! the first dimension only, [`ResourceRbacPolicy`] at the second only, and
//! [`RbacPolicy`] puts the two in a fixed order of precedence.
//!
//! The sets are `HashSet`s, so what the contracts say of a decision holds for
//! role types whose `Hash` and `Eq` follow the model of
//! `vstd::std_specs::hash::obeys_key_model`.

use crate::{Error, Policy, Resource, Subject};
use std::collections::HashSet;
use std::hash::Hash;
use vstd::prelude::*;
use vstd::std_specs::hash::obeys_key_model;
use vstd::std_specs::iter::VerusForLoopWrapper;

verus! {

/// A subject with roles that hold for every resource.
pub trait GlobalRbacSubject: Subject {
    /// The roles of the global dimension.
    type GlobalRole: Hash + Eq;

    /// The global roles that the subject holds. None, unless the subject says
    /// otherwise.
    fn global_roles(&self) -> (roles: HashSet<Self::GlobalRole>)
        default_ensures
            roles@ == Set::<Self::GlobalRole>::empty(),
    {
        HashSet::new()
    }
}

/// A subject with roles towards the resources of one kind.
pub trait RbacSubject<Res>: Subject where Res: RbacResourceWithRole {
    /// The roles that the subject holds towards `resource`. None, unless the
    /// subject says otherwise.
    fn resource_roles(&self, resource: &Res) -> (roles: HashSet<Res::Role>)
        default_ensures
            roles@ == Set::<Res::Role>::empty(),
    {
        HashSet::new()
    }
}

/// A resource with a role dimension of its own.
pub trait RbacResourceWithRole: RbacResource<Self::Role> {
    /// The roles that a subject can have towards this resource.
    type Role: Hash + Eq;
}

/// A resource that names the roles of one dimension that may perform each
/// action.
pub trait RbacResource<Role>: Resource {
    /// The roles that may perform `action`. None, unless the resource says
    /// otherwise: an action that names no role is open to nobody.
    fn allowed_roles(&self, action: &Self::Action) -> (roles: HashSet<Role>)
        default_ensures
            roles@ == Set::<Role>::empty(),
    {
        HashSet::new()
    }
}

/// Whether some role is both allowed and held.
pub open spec fn shares_role<Role>(allowed: Set<Role>, held: Set<Role>) -> bool {
    exists|role: Role| allowed.contains(role) && held.contains(role)
}

/// The decision for one dimension: allow if and only if a role is shared.
pub open spec fn verdict<Role>(allowed: Set<Role>, held: Set<Role>) -> Result<(), Error> {
    if shares_role(allowed, held) {
        Ok(())
    } else {
        Err(Error::Forbidden)
    }
}

/// The decision where both dimensions apply: the resource-scoped roles decide
/// whenever the resource names any for the action, and the global roles decide
/// only when it names none. The two are never added up.
pub open spec fn scoped_first_verdict<Scoped, Global>(
    scoped_allowed: Set<Scoped>,
    scoped_held: Set<Scoped>,
    global_allowed: Set<Global>,
    global_held: Set<Global>,
) -> Result<(), Error> {
    if scoped_allowed =~= Set::<Scoped>::empty() {
        verdict(global_allowed, global_held)
    } else {
        verdict(scoped_allowed, scoped_held)
    }
}

/// Whether `decision` is the verdict on the two sets, as far as the role
/// type's hashing lets anything be known of them.
pub open spec fn decided<Role>(
    allowed: HashSet<Role>,
    held: HashSet<Role>,
    decision: Result<(), Error>,
) -> bool {
    obeys_key_model::<Role>() ==> decision == verdict(allowed@, held@)
}

/// Whether `decision` is the scoped-first verdict on the four sets, as far as
/// the role types' hashing lets anything be known of them.
pub open spec fn decided_scoped_first<Scoped, Global>(
    scoped_allowed: HashSet<Scoped>,
    scoped_held: HashSet<Scoped>,
    global_allowed: HashSet<Global>,
    global_held: HashSet<Global>,
    decision: Result<(), Error>,
) -> bool {
    obeys_key_model::<Scoped>() && obeys_key_model::<Global>() ==> decision
        == scoped_first_verdict(scoped_allowed@, scoped_held@, global_allowed@, global_held@)
}

proof fn lemma_nothing_shared<Role>(walked: Seq<Role>, allowed: Set<Role>, held: Set<Role>)
    requires
        walked.to_set() == allowed,
        forall|i: int| 0 <= i < walked.len() ==> !held.contains(walked[i]),
    ensures
        !shares_role(allowed, held),
{
    assert forall|role: Role| allowed.contains(role) implies !held.contains(role) by {
        assert(walked.to_set().contains(role));
        let i = choose|i: int| 0 <= i < walked.len() && walked[i] == role;
        assert(!held.contains(walked[i]));
    }
}

/// Decides one dimension from the two sets of roles.
///
/// Allows if and only if some role is in both sets. An empty set on either
/// side therefore denies.
pub fn decide_by_roles<Role: Hash + Eq>(allowed: &HashSet<Role>, held: &HashSet<Role>) -> (decision:
    Result<(), Error>)
    ensures
        decided(*allowed, *held, decision),
{
    let total: usize = allowed.len();
    let mut cursor = VerusForLoopWrapper::new(allowed.iter(), Ghost(None));
    let mut visited: usize = 0;
    while visited < total
        invariant
            cursor.wf(),
            visited <= total,
            visited == cursor.index(),
            obeys_key_model::<Role>() ==> total == cursor.seq().len(),
            obeys_key_model::<Role>() ==> cursor.seq().unref().to_set() == allowed@,
            obeys_key_model::<Role>() ==> forall|i: int|
                0 <= i < cursor.index() ==> !held@.contains(*cursor.seq()[i]),
        decreases total - visited,
    {
        match cursor.next() {
            Some(role) => {
                if held.contains(role) {
                    proof {
                        if obeys_key_model::<Role>() {
                            let walked = cursor.seq().unref();
                            assert(walked[cursor.index() - 1] == *role);
                            assert(walked.to_set().contains(*role));
                        }
                    }
                    return Ok(());
                }
            },
            None => {
                proof {
                    if obeys_key_model::<Role>() {
                        lemma_nothing_shared(cursor.seq().unref(), allowed@, held@);
                    }
                }
                return Err(Error::Forbidden);
            },
        }
        visited = visited + 1;
    }
    proof {
        if obeys_key_model::<Role>() {
            lemma_nothing_shared(cursor.seq().unref(), allowed@, held@);
        }
    }
    Err(Error::Forbidden)
}

/// Decides where both dimensions apply, from the four sets of roles, by
/// [`scoped_first_verdict`].
pub fn decide_scoped_first<Scoped: Hash + Eq, Global: Hash + Eq>(
    scoped_allowed: &HashSet<Scoped>,
    scoped_held: &HashSet<Scoped>,
    global_allowed: &HashSet<Global>,
    global_held: &HashSet<Global>,
) -> (decision: Result<(), Error>)
    ensures
        decided_scoped_first(
            *scoped_allowed,
            *scoped_held,
            *global_allowed,
            *global_held,
            decision,
        ),
{
    if scoped_allowed.is_empty() {
        decide_by_roles(global_allowed, global_held)
    } else {
        decide_by_roles(scoped_allowed, scoped_held)
    }
}

/// The policy of the global dimension: a subject may perform an action if it
/// holds one of the global roles that the resource allows for the action.
pub struct GlobalRbacPolicy {}

impl GlobalRbacPolicy {
    /// The policy. It has no settings.
    pub fn new() -> (policy: Self)
        ensures
            policy == (GlobalRbacPolicy {  }),
    {
        GlobalRbacPolicy {  }
    }
}

impl<Res, Subj> Policy<Res, Subj> for GlobalRbacPolicy where
    Subj: GlobalRbacSubject,
    Res: RbacResource<Subj::GlobalRole>,
 {
    /// Asks the subject for its global roles and the resource for the global
    /// roles that it allows for `action`, and decides by [`verdict`].
    fn authorise(&self, resource: &Res, subject: &Subj, action: &Res::Action) -> (decision: Result<
        (),
        Error,
    >)
        ensures
            exists|held: HashSet<Subj::GlobalRole>, allowed: HashSet<Subj::GlobalRole>|
                {
                    &&& call_ensures(Subj::global_roles, (subject,), held)
                    &&& call_ensures(
                        <Res as RbacResource<Subj::GlobalRole>>::allowed_roles,
                        (resource, action),
                        allowed,
                    )
                    &&& #[trigger] decided(allowed, held, decision)
                },
    {
        let held = subject.global_roles();
        let allowed = RbacResource::<Subj::GlobalRole>::allowed_roles(resource, action);
        let decision = decide_by_roles(&allowed, &held);
        assert(decided(allowed, held, decision));
        decision
    }
}

/// The policy of the resource-scoped dimension: a subject may perform an
/// action if, towards this resource, it holds one of the roles that the
/// resource allows for the action.
pub struct ResourceRbacPolicy {}

impl ResourceRbacPolicy {
    /// The policy. It has no settings.
    pub fn new() -> (policy: Self)
        ensures
            policy == (ResourceRbacPolicy {  }),
    {
        ResourceRbacPolicy {  }
    }
}

impl<Res, Subj> Policy<Res, Subj> for ResourceRbacPolicy where
    Subj: RbacSubject<Res>,
    Res: RbacResourceWithRole,
 {
    /// Asks the subject for its roles towards `resource` and the resource for
    /// the roles of its own dimension that it allows for `action`, and decides
    /// by [`verdict`].
    fn authorise(&self, resource: &Res, subject: &Subj, action: &Res::Action) -> (decision: Result<
        (),
        Error,
    >)
        ensures
            exists|held: HashSet<Res::Role>, allowed: HashSet<Res::Role>|
                {
                    &&& call_ensures(
                        <Subj as RbacSubject<Res>>::resource_roles,
                        (subject, resource),
                        held,
                    )
                    &&& call_ensures(
                        <Res as RbacResource<Res::Role>>::allowed_roles,
                        (resource, action),
                        allowed,
                    )
                    &&& #[trigger] decided(allowed, held, decision)
                },
    {
        let held = subject.resource_roles(resource);
        let allowed = RbacResource::<Res::Role>::allowed_roles(resource, action);
        let decision = decide_by_roles(&allowed, &held);
        assert(decided(allowed, held, decision));
        decision
    }
}

/// The policy of both dimensions, the resource-scoped one first.
///
/// Where the resource names resource-scoped roles for the action, they alone
/// decide. The global roles are consulted only where it names none. A subject
/// is never allowed because the two dimensions were added up.
pub struct RbacPolicy {}

impl RbacPolicy {
    /// The policy. It has no settings.
    pub fn new() -> (policy: Self)
        ensures
            policy == (RbacPolicy {  }),
    {
        RbacPolicy {  }
    }
}

impl<Res, Subj> Policy<Res, Subj> for RbacPolicy where
    Subj: RbacSubject<Res> + GlobalRbacSubject,
    Res: RbacResourceWithRole + RbacResource<Subj::GlobalRole>,
 {
    /// Asks subject and resource for the roles of both dimensions and decides
    /// by [`scoped_first_verdict`].
    fn authorise(&self, resource: &Res, subject: &Subj, action: &Res::Action) -> (decision: Result<
        (),
        Error,
    >)
        ensures
            exists|
                scoped_held: HashSet<Res::Role>,
                scoped_allowed: HashSet<Res::Role>,
                global_held: HashSet<Subj::GlobalRole>,
                global_allowed: HashSet<Subj::GlobalRole>,
            |
                {
                    &&& call_ensures(
                        <Subj as RbacSubject<Res>>::resource_roles,
                        (subject, resource),
                        scoped_held,
                    )
                    &&& call_ensures(
                        <Res as RbacResource<Res::Role>>::allowed_roles,
                        (resource, action),
                        scoped_allowed,
                    )
                    &&& call_ensures(Subj::global_roles, (subject,), global_held)
                    &&& call_ensures(
                        <Res as RbacResource<Subj::GlobalRole>>::allowed_roles,
                        (resource, action),
                        global_allowed,
                    )
                    &&& #[trigger] decided_scoped_first(
                        scoped_allowed,
                        scoped_held,
                        global_allowed,
                        global_held,
                        decision,
                    )
                },
    {
        let scoped_held = subject.resource_roles(resource);
        let scoped_allowed = RbacResource::<Res::Role>::allowed_roles(resource, action);
        let global_held = subject.global_roles();
        let global_allowed = RbacResource::<Subj::GlobalRole>::allowed_roles(resource, action);
        let decision = decide_scoped_first(
            &scoped_allowed,
            &scoped_held,
            &global_allowed,
            &global_held,
        );
        assert(decided_scoped_first(
            scoped_allowed,
            scoped_held,
            global_allowed,
            global_held,
            decision,
        ));
        decision
    }
}

/// Denial is the default: where the resource allows no role for the action,
/// the verdict is to deny, whatever roles the subject holds.
pub proof fn lemma_deny_without_allowed_roles<Role>(held: Set<Role>)
    ensures
        verdict(Set::<Role>::empty(), held) == Err::<(), Error>(Error::Forbidden),
{
}

/// A subject that holds no role is denied, whatever roles the resource allows.
pub proof fn lemma_deny_without_held_roles<Role>(allowed: Set<Role>)
    ensures
        verdict(allowed, Set::<Role>::empty()) == Err::<(), Error>(Error::Forbidden),
{
}

/// One shared role is enough to allow, whatever else the two sets hold.
pub proof fn lemma_allow_on_shared_role<Role>(allowed: Set<Role>, held: Set<Role>, role: Role)
    requires
        allowed.contains(role),
        held.contains(role),
    ensures
        verdict(allowed, held) == Ok::<(), Error>(()),
{
}

/// The dimensions do not add up: where the resource names resource-scoped
/// roles for the action, the global roles change nothing.
pub proof fn lemma_scoped_roles_take_precedence<Scoped, Global>(
    scoped_allowed: Set<Scoped>,
    scoped_held: Set<Scoped>,
    global_allowed: Set<Global>,
    global_held: Set<Global>,
    named: Scoped,
)
    requires
        scoped_allowed.contains(named),
    ensures
        scoped_first_verdict(scoped_allowed, scoped_held, global_allowed, global_held) == verdict(
            scoped_allowed,
            scoped_held,
        ),
{
    assert(!(scoped_allowed =~= Set::<Scoped>::empty()));
}

} // verus!

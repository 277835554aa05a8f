//! The authorization kernel: the allow/deny decision and the
//! not-found-versus-forbidden error-shaping policy.
//!
//! The concrete rule set mapping roles to allowed actions is an external
//! collaborator, consulted through a stable, pure interface: here it is a
//! plain table of rules ([`Policy`]), so the kernel's second (read)
//! evaluation is deterministic and side-effect-free by construction.

use vstd::prelude::*;

use crate::actor::Actor;
use crate::datastore::DataStore;
use crate::resource::{
    hides_existence, lookup_matches, LookupType, ResourceHandle, ResourceType,
};
use crate::roles::{is_direct_grant, load_roles_for_resource_tree, RoleSet};

verus! {

/// An action a caller may attempt on a resource.
#[derive(Clone, Copy, Debug, PartialEq, Eq, Structural)]
pub enum Action {
    Read,
    ListChildren,
    Modify,
    CreateChild,
    Delete,
}

/// The three-way error outcome of this core.  `NotFound` covers both a
/// truly absent object and one whose existence is intentionally hidden —
/// indistinguishable by design; it names only what the caller itself
/// supplied.  `InternalError` stands for a storage or policy-engine fault
/// and is terminal for the request.
#[derive(Debug)]
pub enum Error {
    NotFound { resource_type: ResourceType, lookup: LookupType },
    Forbidden,
    InvalidRequest { message: String },
    InternalError { internal_message: String },
}

/// One rule of the policy engine's table: holding `role_name` (anywhere on
/// the target's ancestor chain) allows `action`.
#[derive(Debug)]
pub struct PolicyRule {
    pub role_name: String,
    pub action: Action,
}

/// The policy engine's rule set, as one plain value.  The decision below is
/// a pure function of this table and its arguments.
#[derive(Debug)]
pub struct Policy {
    pub rules: Vec<PolicyRule>,
}

/// Whether the policy maps `role` to `action`.
pub open spec fn policy_grants(p: Policy, role: Seq<char>, action: Action) -> bool {
    exists|ri: int|
        0 <= ri < p.rules@.len() && (#[trigger] p.rules@[ri]).role_name@ == role
            && p.rules@[ri].action == action
}

/// The policy engine's decision over an accumulated role set: allowed if
/// and only if some rule maps a held role to the requested action.
pub open spec fn roleset_allows(p: Policy, rs: RoleSet, action: Action) -> bool {
    exists|ri: int, gi: int|
        0 <= ri < p.rules@.len() && 0 <= gi < rs.grants@.len() && (#[trigger] p.rules@[ri]).action
            == action && (#[trigger] rs.grants@[gi]).role_name@ == p.rules@[ri].role_name@
}

/// The full decision for an actor on a resource: some rule maps to `action`
/// a role the actor holds directly on some role-bearing point of the
/// resource's ancestor chain.  The unauthenticated actor holds no grants,
/// so nothing is ever allowed to it.
pub open spec fn allows_action(
    p: Policy,
    ds: DataStore,
    actor: Actor,
    h: ResourceHandle,
    action: Action,
) -> bool {
    exists|ri: int, t: ResourceType, id: u128|
        0 <= ri < p.rules@.len() && (#[trigger] p.rules@[ri]).action == action
            && #[trigger] h.chain_grant_point(t, id) && is_direct_grant(
            ds,
            actor,
            t,
            id,
            p.rules@[ri].role_name@,
        )
}

/// The kernel's three-way outcome, before the error payload is attached.
#[derive(Clone, Copy, Debug, PartialEq, Eq, Structural)]
pub enum Outcome {
    Allow,
    NotFound,
    Forbidden,
}

/// The kernel's decision algorithm: allow if the policy allows; otherwise,
/// report a denial unchanged on kinds without confidentiality value; on all
/// other kinds, hide the resource's existence unless the actor can read it,
/// in which case the denial is meaningful and surfaces as `Forbidden`.
pub open spec fn eval_outcome(
    p: Policy,
    actor: Actor,
    ds: DataStore,
    action: Action,
    h: ResourceHandle,
) -> Outcome {
    if allows_action(p, ds, actor, h, action) {
        Outcome::Allow
    } else if !hides_existence(h.resource_type) {
        Outcome::Forbidden
    } else if action == Action::Read {
        Outcome::NotFound
    } else if allows_action(p, ds, actor, h, Action::Read) {
        Outcome::Forbidden
    } else {
        Outcome::NotFound
    }
}

/// Whether the accumulated set holds a role of this name on any resource.
pub open spec fn set_has_role(rs: RoleSet, role: Seq<char>) -> bool {
    exists|gi: int| 0 <= gi < rs.grants@.len() && (#[trigger] rs.grants@[gi]).role_name@ == role
}

/// Executable search of the accumulated set for one role name.
fn role_in_set(rs: &RoleSet, role: &String) -> (r: bool)
    ensures
        r == set_has_role(*rs, role@),
{
    let n = rs.grants.len();
    let mut i: usize = 0;
    while i < n
        invariant
            n == rs.grants@.len(),
            i <= n,
            forall|k: int| 0 <= k < i ==> (#[trigger] rs.grants@[k]).role_name@ != role@,
        decreases n - i,
    {
        if rs.grants[i].role_name.eq(role) {
            return true;
        }
        i = i + 1;
    }
    false
}

/// The policy engine's decision: a pure function of the rule table, the
/// action and the accumulated role set.
pub fn decide(p: &Policy, action: Action, rs: &RoleSet) -> (r: bool)
    ensures
        r == roleset_allows(*p, *rs, action),
{
    let n = p.rules.len();
    let mut i: usize = 0;
    while i < n
        invariant
            n == p.rules@.len(),
            i <= n,
            forall|k: int|
                0 <= k < i ==> !((#[trigger] p.rules@[k]).action == action && set_has_role(
                    *rs,
                    p.rules@[k].role_name@,
                )),
        decreases n - i,
    {
        let rule = &p.rules[i];
        if rule.action == action && role_in_set(rs, &rule.role_name) {
            proof {
                let gi = choose|gi: int|
                    0 <= gi < rs.grants@.len() && (#[trigger] rs.grants@[gi]).role_name@
                        == p.rules@[i as int].role_name@;
                assert(0 <= i < p.rules@.len() && 0 <= gi < rs.grants@.len() && p.rules@[
                    i as int].action == action && rs.grants@[gi].role_name@ == p.rules@[
                    i as int].role_name@);
            }
            return true;
        }
        i = i + 1;
    }
    proof {
        if roleset_allows(*p, *rs, action) {
            let (ri, gi) = choose|ri: int, gi: int|
                0 <= ri < p.rules@.len() && 0 <= gi < rs.grants@.len() && (
                #[trigger] p.rules@[ri]).action == action && (#[trigger] rs.grants@[gi]).role_name@
                    == p.rules@[ri].role_name@;
            assert(set_has_role(*rs, p.rules@[ri].role_name@));
        }
    }
    false
}

/// A role set that records exactly the grants of a handle's ancestor chain
/// decides every action the same way the full decision does.
proof fn lemma_loaded_roleset_decides(
    p: Policy,
    ds: DataStore,
    actor: Actor,
    h: ResourceHandle,
    rs: RoleSet,
)
    requires
        forall|t: ResourceType, id: u128, role: Seq<char>|
            rs.contains_role(t, id, role) <==> (h.chain_grant_point(t, id) && is_direct_grant(
                ds,
                actor,
                t,
                id,
                role,
            )),
    ensures
        forall|action: Action|
            #[trigger] roleset_allows(p, rs, action) == allows_action(p, ds, actor, h, action),
{
    assert forall|action: Action|
        #[trigger] roleset_allows(p, rs, action) == allows_action(p, ds, actor, h, action) by {
        if roleset_allows(p, rs, action) {
            let (ri, gi) = choose|ri: int, gi: int|
                0 <= ri < p.rules@.len() && 0 <= gi < rs.grants@.len() && (
                #[trigger] p.rules@[ri]).action == action && (#[trigger] rs.grants@[gi]).role_name@
                    == p.rules@[ri].role_name@;
            let g = rs.grants@[gi];
            assert(crate::roles::grant_matches(g, g.resource_type, g.resource_id, g.role_name@));
            assert(rs.contains_role(g.resource_type, g.resource_id, g.role_name@));
            assert(h.chain_grant_point(g.resource_type, g.resource_id) && is_direct_grant(
                ds,
                actor,
                g.resource_type,
                g.resource_id,
                p.rules@[ri].role_name@,
            ));
            assert(allows_action(p, ds, actor, h, action));
        }
        if allows_action(p, ds, actor, h, action) {
            let (ri, t, id) = choose|ri: int, t: ResourceType, id: u128|
                0 <= ri < p.rules@.len() && (#[trigger] p.rules@[ri]).action == action
                    && #[trigger] h.chain_grant_point(t, id) && is_direct_grant(
                    ds,
                    actor,
                    t,
                    id,
                    p.rules@[ri].role_name@,
                );
            assert(rs.contains_role(t, id, p.rules@[ri].role_name@));
            let gi = choose|gi: int|
                0 <= gi < rs.grants@.len() && crate::roles::grant_matches(
                    #[trigger] rs.grants@[gi],
                    t,
                    id,
                    p.rules@[ri].role_name@,
                );
            assert(0 <= ri < p.rules@.len() && 0 <= gi < rs.grants@.len() && p.rules@[ri].action
                == action && rs.grants@[gi].role_name@ == p.rules@[ri].role_name@);
            assert(roleset_allows(p, rs, action));
        }
    }
}

impl ResourceHandle {
    /// The error reported when this resource must appear not to exist: it
    /// names the kind and exactly what the caller supplied to locate the
    /// resource — never an internal identifier resolved along the way.
    pub fn not_found(&self) -> (e: Error)
        ensures
            (e matches Error::NotFound { resource_type, lookup } && resource_type
                == self.resource_type && lookup_matches(lookup, self.lookup)),
    {
        Error::NotFound { resource_type: self.resource_type, lookup: self.lookup.clone() }
    }
}

/// The context one operation runs in: the authenticated actor and the
/// policy engine's rule table.  Constructed per request; holds no state
/// beyond it.
#[derive(Debug)]
pub struct OpContext {
    pub actor: Actor,
    pub policy: Policy,
}

impl OpContext {
    /// The authorization kernel.  Obtains a fresh role set by tree
    /// accumulation over the resource's ancestor chain, asks the policy
    /// engine, and on denial applies the error-shaping rule: a denial on a
    /// kind without confidentiality value is reported unchanged as
    /// `Forbidden`; otherwise the caller sees `NotFound` unless it can read
    /// the resource, in which case the denial is meaningful and surfaces as
    /// `Forbidden`.
    pub fn authorize(&self, datastore: &DataStore, action: Action, resource: &ResourceHandle) -> (r:
        Result<(), Error>)
        requires
            resource.wf(),
        ensures
            r is Ok <==> eval_outcome(self.policy, self.actor, *datastore, action, *resource)
                is Allow,
            eval_outcome(self.policy, self.actor, *datastore, action, *resource) is Forbidden
                ==> r matches Err(Error::Forbidden),
            eval_outcome(self.policy, self.actor, *datastore, action, *resource) is NotFound ==> (
            r matches Err(Error::NotFound { resource_type, lookup }) && resource_type
                == resource.resource_type && lookup_matches(lookup, resource.lookup)),
    {
        let mut roleset = RoleSet::new();
        let _queries = load_roles_for_resource_tree(datastore, &self.actor, resource, &mut roleset);
        proof {
            lemma_loaded_roleset_decides(
                self.policy,
                *datastore,
                self.actor,
                *resource,
                roleset,
            );
        }
        if decide(&self.policy, action, &roleset) {
            Ok(())
        } else if !crate::resource::kind_hides_existence(resource.resource_type) {
            Err(Error::Forbidden)
        } else if action == Action::Read {
            Err(resource.not_found())
        } else if decide(&self.policy, Action::Read, &roleset) {
            Err(Error::Forbidden)
        } else {
            Err(resource.not_found())
        }
    }
}

/// Hiding: on a confidentiality-bearing kind, an actor who cannot read the
/// resource receives the same `NotFound` for every action it is denied —
/// no choice of action can reveal whether the resource exists.
pub proof fn lemma_hiding(p: Policy, actor: Actor, ds: DataStore, h: ResourceHandle)
    requires
        hides_existence(h.resource_type),
        !allows_action(p, ds, actor, h, Action::Read),
    ensures
        forall|m: Action|
            !allows_action(p, ds, actor, h, m) ==> #[trigger] eval_outcome(p, actor, ds, m, h)
                == Outcome::NotFound,
{
}

/// Visible-forbidden: an actor who can read the resource but is denied an
/// action receives `Forbidden`, never `NotFound` — the caller can already
/// see the object, so a true permission error is meaningful.
pub proof fn lemma_visible_forbidden(
    p: Policy,
    actor: Actor,
    ds: DataStore,
    h: ResourceHandle,
    m: Action,
)
    requires
        allows_action(p, ds, actor, h, Action::Read),
        !allows_action(p, ds, actor, h, m),
    ensures
        eval_outcome(p, actor, ds, m, h) == Outcome::Forbidden,
{
}

/// Inheritance: a role granted on any role-bearing ancestor of a resource,
/// mapped by the policy to an action, allows that action on the resource —
/// the resource itself need not carry any direct grant.
pub proof fn lemma_role_inheritance(
    p: Policy,
    actor: Actor,
    ds: DataStore,
    h: ResourceHandle,
    t: ResourceType,
    id: u128,
    role: Seq<char>,
    m: Action,
)
    requires
        h.chain_grant_point(t, id),
        is_direct_grant(ds, actor, t, id, role),
        policy_grants(p, role, m),
    ensures
        eval_outcome(p, actor, ds, m, h) == Outcome::Allow,
{
    let ri = choose|ri: int|
        0 <= ri < p.rules@.len() && (#[trigger] p.rules@[ri]).role_name@ == role && p.rules@[
            ri].action == m;
    assert(0 <= ri < p.rules@.len() && p.rules@[ri].action == m && h.chain_grant_point(t, id)
        && is_direct_grant(ds, actor, t, id, p.rules@[ri].role_name@));
    assert(allows_action(p, ds, actor, h, m));
}

} // verus!

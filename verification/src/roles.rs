//! The role accumulator: walks a resource's ancestor chain and gathers the
//! roles an actor holds at each role-bearing ancestor, expanding
//! group-membership-derived grants in the same pass.
//!
//! Every read performed here is a plain query of the [`DataStore`] value.
//! Nothing in this module consults the authorization kernel — that is the
//! load-bearing rule that prevents mutual recursion between authorization
//! and role loading — and the number of direct-grant queries is bounded by
//! the hierarchy's depth ([`crate::resource::MAX_DEPTH`]).

use vstd::prelude::*;

use crate::actor::{actor_id, Actor};
use crate::datastore::DataStore;
use crate::resource::{roles_allowed, PrimaryKey, ResourceHandle, ResourceType};

verus! {

/// One accumulated grant: the actor holds `role_name` on the resource
/// `(resource_type, resource_id)`.
#[derive(Debug)]
pub struct RoleGrant {
    pub resource_type: ResourceType,
    pub resource_id: u128,
    pub role_name: String,
}

/// Whether a grant entry is the triple `(t, id, role)`.
pub open spec fn grant_matches(g: RoleGrant, t: ResourceType, id: u128, role: Seq<char>) -> bool {
    g.resource_type == t && g.resource_id == id && g.role_name@ == role
}

/// The roles an actor holds across one resource and its ancestors, computed
/// freshly for each authorization decision and never cached across calls.
#[derive(Debug)]
pub struct RoleSet {
    pub grants: Vec<RoleGrant>,
}

impl RoleSet {
    /// Whether the set records that the actor holds `role` on `(t, id)`.
    pub open spec fn contains_role(self, t: ResourceType, id: u128, role: Seq<char>) -> bool {
        exists|i: int|
            0 <= i < self.grants@.len() && grant_matches(#[trigger] self.grants@[i], t, id, role)
    }

    /// An empty role set.
    pub fn new() -> (r: RoleSet)
        ensures
            forall|t: ResourceType, id: u128, role: Seq<char>| !r.contains_role(t, id, role),
    {
        RoleSet { grants: Vec::new() }
    }
}

/// Whether the actor of id `aid` belongs to the group `gid`.
pub open spec fn is_member(ds: DataStore, aid: u128, gid: u128) -> bool {
    exists|i: int|
        0 <= i < ds.group_memberships@.len() && (#[trigger] ds.group_memberships@[i]).actor_id
            == aid && ds.group_memberships@[i].group_id == gid
}

/// Whether a grant held by `identity` applies to `actor`: either the
/// identity is the actor itself, or it is a group the actor belongs to.
/// Nothing applies to the unauthenticated actor.
pub open spec fn identity_applies(ds: DataStore, actor: Actor, identity: u128) -> bool {
    match actor_id(actor) {
        None => false,
        Some(aid) => identity == aid || is_member(ds, aid, identity),
    }
}

/// Whether the actor holds `role` directly on `(t, id)` — granted to the
/// actor itself or to one of its groups, exactly on that object.
pub open spec fn is_direct_grant(
    ds: DataStore,
    actor: Actor,
    t: ResourceType,
    id: u128,
    role: Seq<char>,
) -> bool {
    exists|i: int|
        0 <= i < ds.role_assignments@.len() && {
            let ra = #[trigger] ds.role_assignments@[i];
            &&& ra.resource_type == t
            &&& ra.resource_id == id
            &&& ra.role_name@ == role
            &&& identity_applies(ds, actor, ra.identity_id)
        }
}

/// Like [`is_direct_grant`], restricted to the first `n` assignments; used
/// as the loop invariant of [`load_roles_for_resource`].
pub open spec fn is_direct_grant_prefix(
    ds: DataStore,
    actor: Actor,
    t: ResourceType,
    id: u128,
    role: Seq<char>,
    n: int,
) -> bool {
    exists|i: int|
        0 <= i < n && i < ds.role_assignments@.len() && {
            let ra = #[trigger] ds.role_assignments@[i];
            &&& ra.resource_type == t
            &&& ra.resource_id == id
            &&& ra.role_name@ == role
            &&& identity_applies(ds, actor, ra.identity_id)
        }
}

/// Taking one more assignment into account adds exactly the grant that
/// assignment makes, if it applies to the actor on `(t, id)`.
proof fn lemma_prefix_step(
    ds: DataStore,
    actor: Actor,
    t: ResourceType,
    id: u128,
    role: Seq<char>,
    n: int,
)
    requires
        0 <= n < ds.role_assignments@.len(),
    ensures
        is_direct_grant_prefix(ds, actor, t, id, role, n + 1) <==> (is_direct_grant_prefix(
            ds,
            actor,
            t,
            id,
            role,
            n,
        ) || {
            let ra = ds.role_assignments@[n];
            &&& ra.resource_type == t
            &&& ra.resource_id == id
            &&& ra.role_name@ == role
            &&& identity_applies(ds, actor, ra.identity_id)
        }),
{
    if is_direct_grant_prefix(ds, actor, t, id, role, n + 1) {
        let k = choose|k: int|
            0 <= k < n + 1 && k < ds.role_assignments@.len() && {
                let ra = #[trigger] ds.role_assignments@[k];
                &&& ra.resource_type == t
                &&& ra.resource_id == id
                &&& ra.role_name@ == role
                &&& identity_applies(ds, actor, ra.identity_id)
            };
        if k < n {
            assert(is_direct_grant_prefix(ds, actor, t, id, role, n));
        }
    }
    if is_direct_grant_prefix(ds, actor, t, id, role, n) {
        let k = choose|k: int|
            0 <= k < n && k < ds.role_assignments@.len() && {
                let ra = #[trigger] ds.role_assignments@[k];
                &&& ra.resource_type == t
                &&& ra.resource_id == id
                &&& ra.role_name@ == role
                &&& identity_applies(ds, actor, ra.identity_id)
            };
        assert(0 <= k < n + 1);
    }
}

/// Executable membership test over the datastore's membership table.
fn actor_in_group(ds: &DataStore, aid: u128, gid: u128) -> (r: bool)
    ensures
        r == is_member(*ds, aid, gid),
{
    let n = ds.group_memberships.len();
    let mut i: usize = 0;
    while i < n
        invariant
            n == ds.group_memberships@.len(),
            i <= n,
            forall|k: int|
                0 <= k < i ==> !((#[trigger] ds.group_memberships@[k]).actor_id == aid
                    && ds.group_memberships@[k].group_id == gid),
        decreases n - i,
    {
        let m = &ds.group_memberships[i];
        if m.actor_id == aid && m.group_id == gid {
            return true;
        }
        i = i + 1;
    }
    false
}

/// Executable view of [`identity_applies`].
fn identity_applies_to(ds: &DataStore, actor: &Actor, identity: u128) -> (r: bool)
    ensures
        r == identity_applies(*ds, *actor, identity),
{
    match actor.id() {
        None => false,
        Some(aid) => identity == aid || actor_in_group(ds, aid, identity),
    }
}

/// Direct grants for one resource: merges into `roleset` every role the
/// actor holds exactly on `(t, id)`, via the datastore's no-authorization
/// read path.  Group-derived grants are expanded in the same pass.
pub fn load_roles_for_resource(
    ds: &DataStore,
    actor: &Actor,
    t: ResourceType,
    id: u128,
    roleset: &mut RoleSet,
)
    ensures
        forall|t2: ResourceType, id2: u128, role: Seq<char>|
            final(roleset).contains_role(t2, id2, role) <==> (old(roleset).contains_role(
                t2,
                id2,
                role,
            ) || (t2 == t && id2 == id && is_direct_grant(*ds, *actor, t, id, role))),
{
    let n = ds.role_assignments.len();
    let mut i: usize = 0;
    while i < n
        invariant
            n == ds.role_assignments@.len(),
            i <= n,
            forall|t2: ResourceType, id2: u128, role: Seq<char>|
                roleset.contains_role(t2, id2, role) <==> (old(roleset).contains_role(t2, id2, role)
                    || (t2 == t && id2 == id && is_direct_grant_prefix(
                    *ds,
                    *actor,
                    t,
                    id,
                    role,
                    i as int,
                ))),
        decreases n - i,
    {
        let ra = &ds.role_assignments[i];
        let matched = ra.resource_type == t && ra.resource_id == id && identity_applies_to(
            ds,
            actor,
            ra.identity_id,
        );
        let ghost before = *roleset;
        if matched {
            roleset.grants.push(
                RoleGrant { resource_type: t, resource_id: id, role_name: ra.role_name.clone() },
            );
        }
        proof {
            let ghost ra_g = ds.role_assignments@[i as int];
            assert forall|t2: ResourceType, id2: u128, role: Seq<char>|
                roleset.contains_role(t2, id2, role) <==> (old(roleset).contains_role(t2, id2, role)
                    || (t2 == t && id2 == id && is_direct_grant_prefix(
                    *ds,
                    *actor,
                    t,
                    id,
                    role,
                    i + 1,
                ))) by {
                lemma_prefix_step(*ds, *actor, t, id, role, i as int);
                if matched {
                    let m = before.grants@.len() as int;
                    assert(roleset.grants@ == before.grants@.push(roleset.grants@[m]));
                    assert(roleset.grants@[m].resource_type == t);
                    assert(roleset.grants@[m].resource_id == id);
                    assert(roleset.grants@[m].role_name@ == ra_g.role_name@);
                    if roleset.contains_role(t2, id2, role) {
                        let w = choose|k: int|
                            0 <= k < roleset.grants@.len() && grant_matches(
                                #[trigger] roleset.grants@[k],
                                t2,
                                id2,
                                role,
                            );
                        if w < m {
                            assert(grant_matches(before.grants@[w], t2, id2, role));
                            assert(before.contains_role(t2, id2, role));
                        } else {
                            assert(t2 == t && id2 == id && role == ra_g.role_name@);
                        }
                    }
                    if before.contains_role(t2, id2, role) {
                        let w = choose|k: int|
                            0 <= k < before.grants@.len() && grant_matches(
                                #[trigger] before.grants@[k],
                                t2,
                                id2,
                                role,
                            );
                        assert(grant_matches(roleset.grants@[w], t2, id2, role));
                        assert(roleset.contains_role(t2, id2, role));
                    }
                    if t2 == t && id2 == id && role == ra_g.role_name@ {
                        assert(grant_matches(roleset.grants@[m], t2, id2, role));
                        assert(roleset.contains_role(t2, id2, role));
                    }
                }
            }
        }
        i = i + 1;
    }
}

/// Tree role accumulation: walks from the target resource up through every
/// ancestor to the root, calling [`load_roles_for_resource`] at each
/// role-bearing ancestor, and returns how many direct-grant queries it
/// performed.  The count is bounded by the hierarchy's depth, whatever the
/// stored data holds, and the walk never consults the authorization kernel.
pub fn load_roles_for_resource_tree(
    ds: &DataStore,
    actor: &Actor,
    resource: &ResourceHandle,
    roleset: &mut RoleSet,
) -> (queries: usize)
    requires
        resource.wf(),
    ensures
        forall|t: ResourceType, id: u128, role: Seq<char>|
            final(roleset).contains_role(t, id, role) <==> (old(roleset).contains_role(t, id, role)
                || (resource.chain_grant_point(t, id) && is_direct_grant(
                *ds,
                *actor,
                t,
                id,
                role,
            ))),
        queries == resource.chain_role_queries(),
    decreases *resource,
{
    proof {
        resource.lemma_chain_role_queries_bounded();
    }
    let mut here: usize = 0;
    if roles_allowed_exec(resource.resource_type) {
        if let PrimaryKey::Id(id) = resource.key {
            load_roles_for_resource(ds, actor, resource.resource_type, id, roleset);
            here = 1;
        }
    }
    match &resource.parent {
        Some(p) => {
            let up = load_roles_for_resource_tree(ds, actor, &**p, roleset);
            here + up
        },
        None => here,
    }
}

/// Executable view of [`roles_allowed`].
pub fn roles_allowed_exec(t: ResourceType) -> (r: bool)
    ensures
        r == roles_allowed(t),
{
    match t {
        ResourceType::Fleet => true,
        ResourceType::Silo => true,
        ResourceType::Organization => true,
        ResourceType::Project => true,
        _ => false,
    }
}

} // verus!

//! The lookup resolver: a chain builder rooted at an operation context and
//! a datastore handle, which resolves name-or-id references through the
//! hierarchy into authorized resource handles plus rows.
//!
//! Descent by identifier can be resolved without first resolving the
//! parent, because identifiers are globally unique; descent by name defers
//! to its parent, because name uniqueness is scoped to the parent.  A
//! by-name chain therefore authorizes every level it resolves, stops at the
//! first denial, and never queries the datastore below a level the actor
//! cannot read.  Failures name only what the caller itself supplied for the
//! failing step — never an identifier resolved along the way.

use vstd::prelude::*;

use crate::actor::Actor;
use crate::authz::{eval_outcome, Action, Error, OpContext, Outcome, Policy};
use crate::datastore::{DataStore, Row};
use crate::resource::{
    handle_eq, is_fleet_handle, LookupType, PrimaryKey, ResourceHandle, ResourceType, FLEET,
    FLEET_ID,
};
use crate::roles::is_direct_grant;

verus! {

/// A name in the API, scoped to its parent resource.
#[derive(Debug, PartialEq, Eq)]
pub struct Name(pub String);

impl Clone for Name {
    fn clone(&self) -> (r: Self)
        ensures
            r == *self,
    {
        Name(self.0.clone())
    }
}

/// Ghost description of one lookup step: the name or the identifier the
/// caller supplied for that step.
pub enum KeySpec {
    ByName(Seq<char>),
    ById(u128),
}

/// Whether a recorded lookup matches the step description.
pub open spec fn lookup_matches_key(l: LookupType, k: KeySpec) -> bool {
    match (l, k) {
        (LookupType::ByName(s), KeySpec::ByName(n)) => s@ == n,
        (LookupType::ById(i), KeySpec::ById(j)) => i == j,
        _ => false,
    }
}

/// Ghost description of how a project is addressed: directly by identifier,
/// or by name under an organization addressed in turn.
pub enum ProjectKeySpec {
    ByName(KeySpec, Seq<char>),
    ById(u128),
}

/// Ghost description of how an instance is addressed.
pub enum InstanceKeySpec {
    ByName(ProjectKeySpec, Seq<char>),
    ById(u128),
}

/// The outcome of resolving a chain: an authorized target, a shaped
/// not-found (naming the failing step exactly as the caller put it), a
/// shaped permission denial, or a stored-data inconsistency.
pub enum Resolution<T> {
    Allowed(T),
    NotFound(ResourceType, KeySpec),
    Forbidden,
    Inconsistent,
}

/// Whether the policy allows `action` through a grant on the organization
/// itself or on the fleet — the two role-bearing points of an
/// organization's ancestor chain.
pub open spec fn org_allows(
    p: Policy,
    a: Actor,
    ds: DataStore,
    action: Action,
    org_id: u128,
) -> bool {
    exists|ri: int|
        0 <= ri < p.rules@.len() && (#[trigger] p.rules@[ri]).action == action && (is_direct_grant(
            ds,
            a,
            ResourceType::Organization,
            org_id,
            p.rules@[ri].role_name@,
        ) || is_direct_grant(ds, a, ResourceType::Fleet, FLEET_ID, p.rules@[ri].role_name@))
}

/// Like [`org_allows`], for the three role-bearing points of a project's
/// ancestor chain.  Kinds below projects bear no direct grants, so this is
/// also the decision basis for their descendants.
pub open spec fn proj_allows(
    p: Policy,
    a: Actor,
    ds: DataStore,
    action: Action,
    proj_id: u128,
    org_id: u128,
) -> bool {
    exists|ri: int|
        0 <= ri < p.rules@.len() && (#[trigger] p.rules@[ri]).action == action && (is_direct_grant(
            ds,
            a,
            ResourceType::Project,
            proj_id,
            p.rules@[ri].role_name@,
        ) || is_direct_grant(ds, a, ResourceType::Organization, org_id, p.rules@[ri].role_name@)
            || is_direct_grant(ds, a, ResourceType::Fleet, FLEET_ID, p.rules@[ri].role_name@))
}

/// The kernel's outcome for an action on an organization.
pub open spec fn org_outcome(
    p: Policy,
    a: Actor,
    ds: DataStore,
    action: Action,
    org_id: u128,
) -> Outcome {
    if org_allows(p, a, ds, action, org_id) {
        Outcome::Allow
    } else if action == Action::Read {
        Outcome::NotFound
    } else if org_allows(p, a, ds, Action::Read, org_id) {
        Outcome::Forbidden
    } else {
        Outcome::NotFound
    }
}

/// The kernel's outcome for an action on a project.
pub open spec fn proj_outcome(
    p: Policy,
    a: Actor,
    ds: DataStore,
    action: Action,
    proj_id: u128,
    org_id: u128,
) -> Outcome {
    if proj_allows(p, a, ds, action, proj_id, org_id) {
        Outcome::Allow
    } else if action == Action::Read {
        Outcome::NotFound
    } else if proj_allows(p, a, ds, Action::Read, proj_id, org_id) {
        Outcome::Forbidden
    } else {
        Outcome::NotFound
    }
}

/// The kernel's outcome for an action on an instance: instances bear no
/// direct grants, so the decision rests on the project-level grant points.
pub open spec fn inst_outcome(
    p: Policy,
    a: Actor,
    ds: DataStore,
    action: Action,
    proj_id: u128,
    org_id: u128,
) -> Outcome {
    if proj_allows(p, a, ds, action, proj_id, org_id) {
        Outcome::Allow
    } else if action == Action::Read {
        Outcome::NotFound
    } else if proj_allows(p, a, ds, Action::Read, proj_id, org_id) {
        Outcome::Forbidden
    } else {
        Outcome::NotFound
    }
}

/// The handle an organization lookup produces: the organization under the
/// fleet root, whatever lookup record it carries.
pub open spec fn is_org_handle(h: ResourceHandle, org_id: u128) -> bool {
    &&& h.resource_type == ResourceType::Organization
    &&& h.key == PrimaryKey::Id(org_id)
    &&& (h.parent matches Some(pp) && is_fleet_handle(*pp))
}

/// The handle a project lookup produces.
pub open spec fn is_proj_handle(h: ResourceHandle, proj_id: u128, org_id: u128) -> bool {
    &&& h.resource_type == ResourceType::Project
    &&& h.key == PrimaryKey::Id(proj_id)
    &&& (h.parent matches Some(pp) && is_org_handle(*pp, org_id))
}

/// The handle an instance lookup produces.
pub open spec fn is_inst_handle(
    h: ResourceHandle,
    inst_id: u128,
    proj_id: u128,
    org_id: u128,
) -> bool {
    &&& h.resource_type == ResourceType::Instance
    &&& h.key == PrimaryKey::Id(inst_id)
    &&& (h.parent matches Some(pp) && is_proj_handle(*pp, proj_id, org_id))
}

/// An organization handle's grant points are exactly the organization and
/// the fleet, so the kernel's outcome on it is [`org_outcome`].
pub proof fn lemma_org_handle_outcome(
    p: Policy,
    a: Actor,
    ds: DataStore,
    h: ResourceHandle,
    org_id: u128,
)
    requires
        is_org_handle(h, org_id),
    ensures
        forall|action: Action| #[trigger]
            eval_outcome(p, a, ds, action, h) == org_outcome(p, a, ds, action, org_id),
{
    assert forall|t: ResourceType, id: u128| #[trigger]
        h.chain_grant_point(t, id) == ((t == ResourceType::Organization && id == org_id) || (t
            == ResourceType::Fleet && id == FLEET_ID)) by {
        let pp = h.parent->0;
        assert(h.chain_contains(t, id) == ((h.resource_type == t && h.key == PrimaryKey::Id(id))
            || pp.chain_contains(t, id)));
        assert(pp.chain_contains(t, id) == (pp.resource_type == t && pp.key == PrimaryKey::Id(
            id,
        )));
    }
    assert forall|action: Action| #[trigger]
        eval_outcome(p, a, ds, action, h) == org_outcome(p, a, ds, action, org_id) by {
        lemma_org_allows_eq(p, a, ds, h, org_id, action);
        lemma_org_allows_eq(p, a, ds, h, org_id, Action::Read);
    }
}

/// Pointwise equality of the generic decision and the organization-level
/// one, once the chain's grant points are characterized.
proof fn lemma_org_allows_eq(
    p: Policy,
    a: Actor,
    ds: DataStore,
    h: ResourceHandle,
    org_id: u128,
    action: Action,
)
    requires
        forall|t: ResourceType, id: u128| #[trigger]
            h.chain_grant_point(t, id) == ((t == ResourceType::Organization && id == org_id) || (
            t == ResourceType::Fleet && id == FLEET_ID)),
    ensures
        crate::authz::allows_action(p, ds, a, h, action) == org_allows(p, a, ds, action, org_id),
{
    if crate::authz::allows_action(p, ds, a, h, action) {
        let (ri, t, id) = choose|ri: int, t: ResourceType, id: u128|
            0 <= ri < p.rules@.len() && (#[trigger] p.rules@[ri]).action == action
                && #[trigger] h.chain_grant_point(t, id) && is_direct_grant(
                ds,
                a,
                t,
                id,
                p.rules@[ri].role_name@,
            );
        assert(org_allows(p, a, ds, action, org_id));
    }
    if org_allows(p, a, ds, action, org_id) {
        let ri = choose|ri: int|
            0 <= ri < p.rules@.len() && (#[trigger] p.rules@[ri]).action == action && (
            is_direct_grant(ds, a, ResourceType::Organization, org_id, p.rules@[ri].role_name@)
                || is_direct_grant(ds, a, ResourceType::Fleet, FLEET_ID, p.rules@[ri].role_name@));
        if is_direct_grant(ds, a, ResourceType::Organization, org_id, p.rules@[ri].role_name@) {
            assert(h.chain_grant_point(ResourceType::Organization, org_id));
        } else {
            assert(h.chain_grant_point(ResourceType::Fleet, FLEET_ID));
        }
        assert(crate::authz::allows_action(p, ds, a, h, action));
    }
}

/// A project handle's grant points are the project, its organization and
/// the fleet.
pub proof fn lemma_proj_handle_outcome(
    p: Policy,
    a: Actor,
    ds: DataStore,
    h: ResourceHandle,
    proj_id: u128,
    org_id: u128,
)
    requires
        is_proj_handle(h, proj_id, org_id),
    ensures
        forall|action: Action| #[trigger]
            eval_outcome(p, a, ds, action, h) == proj_outcome(p, a, ds, action, proj_id, org_id),
{
    assert forall|t: ResourceType, id: u128| #[trigger]
        h.chain_grant_point(t, id) == ((t == ResourceType::Project && id == proj_id) || (t
            == ResourceType::Organization && id == org_id) || (t == ResourceType::Fleet && id
            == FLEET_ID)) by {
        let po = h.parent->0;
        let pf = po.parent->0;
        assert(h.chain_contains(t, id) == ((h.resource_type == t && h.key == PrimaryKey::Id(id))
            || po.chain_contains(t, id)));
        assert(po.chain_contains(t, id) == ((po.resource_type == t && po.key == PrimaryKey::Id(
            id,
        )) || pf.chain_contains(t, id)));
        assert(pf.chain_contains(t, id) == (pf.resource_type == t && pf.key == PrimaryKey::Id(
            id,
        )));
    }
    assert forall|action: Action| #[trigger]
        eval_outcome(p, a, ds, action, h) == proj_outcome(p, a, ds, action, proj_id, org_id) by {
        lemma_proj_allows_eq(p, a, ds, h, proj_id, org_id, action);
        lemma_proj_allows_eq(p, a, ds, h, proj_id, org_id, Action::Read);
    }
}

/// Pointwise equality of the generic decision and the project-level one.
proof fn lemma_proj_allows_eq(
    p: Policy,
    a: Actor,
    ds: DataStore,
    h: ResourceHandle,
    proj_id: u128,
    org_id: u128,
    action: Action,
)
    requires
        forall|t: ResourceType, id: u128| #[trigger]
            h.chain_grant_point(t, id) == ((t == ResourceType::Project && id == proj_id) || (t
                == ResourceType::Organization && id == org_id) || (t == ResourceType::Fleet && id
                == FLEET_ID)),
    ensures
        crate::authz::allows_action(p, ds, a, h, action) == proj_allows(
            p,
            a,
            ds,
            action,
            proj_id,
            org_id,
        ),
{
    if crate::authz::allows_action(p, ds, a, h, action) {
        let (ri, t, id) = choose|ri: int, t: ResourceType, id: u128|
            0 <= ri < p.rules@.len() && (#[trigger] p.rules@[ri]).action == action
                && #[trigger] h.chain_grant_point(t, id) && is_direct_grant(
                ds,
                a,
                t,
                id,
                p.rules@[ri].role_name@,
            );
        assert(proj_allows(p, a, ds, action, proj_id, org_id));
    }
    if proj_allows(p, a, ds, action, proj_id, org_id) {
        let ri = choose|ri: int|
            0 <= ri < p.rules@.len() && (#[trigger] p.rules@[ri]).action == action && (
            is_direct_grant(ds, a, ResourceType::Project, proj_id, p.rules@[ri].role_name@)
                || is_direct_grant(ds, a, ResourceType::Organization, org_id, p.rules@[
                ri].role_name@) || is_direct_grant(
                ds,
                a,
                ResourceType::Fleet,
                FLEET_ID,
                p.rules@[ri].role_name@,
            ));
        if is_direct_grant(ds, a, ResourceType::Project, proj_id, p.rules@[ri].role_name@) {
            assert(h.chain_grant_point(ResourceType::Project, proj_id));
        } else if is_direct_grant(ds, a, ResourceType::Organization, org_id, p.rules@[
            ri].role_name@) {
            assert(h.chain_grant_point(ResourceType::Organization, org_id));
        } else {
            assert(h.chain_grant_point(ResourceType::Fleet, FLEET_ID));
        }
        assert(crate::authz::allows_action(p, ds, a, h, action));
    }
}

/// An instance handle's grant points coincide with its project's.
pub proof fn lemma_inst_handle_outcome(
    p: Policy,
    a: Actor,
    ds: DataStore,
    h: ResourceHandle,
    inst_id: u128,
    proj_id: u128,
    org_id: u128,
)
    requires
        is_inst_handle(h, inst_id, proj_id, org_id),
    ensures
        forall|action: Action| #[trigger]
            eval_outcome(p, a, ds, action, h) == inst_outcome(p, a, ds, action, proj_id, org_id),
{
    assert forall|t: ResourceType, id: u128| #[trigger]
        h.chain_grant_point(t, id) == ((t == ResourceType::Project && id == proj_id) || (t
            == ResourceType::Organization && id == org_id) || (t == ResourceType::Fleet && id
            == FLEET_ID)) by {
        let pp = h.parent->0;
        let po = pp.parent->0;
        let pf = po.parent->0;
        assert(h.chain_contains(t, id) == ((h.resource_type == t && h.key == PrimaryKey::Id(id))
            || pp.chain_contains(t, id)));
        assert(pp.chain_contains(t, id) == ((pp.resource_type == t && pp.key == PrimaryKey::Id(
            id,
        )) || po.chain_contains(t, id)));
        assert(po.chain_contains(t, id) == ((po.resource_type == t && po.key == PrimaryKey::Id(
            id,
        )) || pf.chain_contains(t, id)));
        assert(pf.chain_contains(t, id) == (pf.resource_type == t && pf.key == PrimaryKey::Id(
            id,
        )));
        assert(!crate::resource::roles_allowed(ResourceType::Instance));
    }
    assert forall|action: Action| #[trigger]
        eval_outcome(p, a, ds, action, h) == inst_outcome(p, a, ds, action, proj_id, org_id) by {
        lemma_proj_allows_eq(p, a, ds, h, proj_id, org_id, action);
        lemma_proj_allows_eq(p, a, ds, h, proj_id, org_id, Action::Read);
    }
}

/// The row an organization step addresses (meaningful when it exists).
pub open spec fn org_row_for(ds: DataStore, k: KeySpec) -> Row {
    match k {
        KeySpec::ByName(n) => ds.live_row_name(ResourceType::Organization, FLEET_ID, n),
        KeySpec::ById(i) => ds.live_row_id(ResourceType::Organization, i),
    }
}

/// Whether the row an organization step addresses exists.
pub open spec fn org_row_present(ds: DataStore, k: KeySpec) -> bool {
    match k {
        KeySpec::ByName(n) => ds.has_live_row_name(ResourceType::Organization, FLEET_ID, n),
        KeySpec::ById(i) => ds.has_live_row_id(ResourceType::Organization, i),
    }
}

/// Resolving one organization step: query the row, then authorize read on
/// the handle it yields.  Zero rows fail with the step's own lookup; a read
/// denial is shaped by the kernel before it reaches the caller.
pub open spec fn resolve_organization(
    p: Policy,
    a: Actor,
    ds: DataStore,
    k: KeySpec,
) -> Resolution<u128> {
    if !org_row_present(ds, k) {
        Resolution::NotFound(ResourceType::Organization, k)
    } else {
        let id = org_row_for(ds, k).id;
        match org_outcome(p, a, ds, Action::Read, id) {
            Outcome::Allow => Resolution::Allowed(id),
            Outcome::NotFound => Resolution::NotFound(ResourceType::Organization, k),
            Outcome::Forbidden => Resolution::Forbidden,
        }
    }
}

/// Resolving a project step: by identifier directly, or by name after its
/// organization resolves.  The result carries (organization id, project id).
pub open spec fn resolve_project(
    p: Policy,
    a: Actor,
    ds: DataStore,
    pk: ProjectKeySpec,
) -> Resolution<(u128, u128)> {
    match pk {
        ProjectKeySpec::ById(i) => if !ds.has_live_row_id(ResourceType::Project, i) {
            Resolution::NotFound(ResourceType::Project, KeySpec::ById(i))
        } else {
            let row = ds.live_row_id(ResourceType::Project, i);
            match proj_outcome(p, a, ds, Action::Read, i, row.parent_id) {
                Outcome::Allow => Resolution::Allowed((row.parent_id, i)),
                Outcome::NotFound => Resolution::NotFound(ResourceType::Project, KeySpec::ById(i)),
                Outcome::Forbidden => Resolution::Forbidden,
            }
        },
        ProjectKeySpec::ByName(ok_, n) => match resolve_organization(p, a, ds, ok_) {
            Resolution::Allowed(oid) => if !ds.has_live_row_name(ResourceType::Project, oid, n) {
                Resolution::NotFound(ResourceType::Project, KeySpec::ByName(n))
            } else {
                let row = ds.live_row_name(ResourceType::Project, oid, n);
                match proj_outcome(p, a, ds, Action::Read, row.id, oid) {
                    Outcome::Allow => Resolution::Allowed((oid, row.id)),
                    Outcome::NotFound => Resolution::NotFound(
                        ResourceType::Project,
                        KeySpec::ByName(n),
                    ),
                    Outcome::Forbidden => Resolution::Forbidden,
                }
            },
            Resolution::NotFound(t, kk) => Resolution::NotFound(t, kk),
            Resolution::Forbidden => Resolution::Forbidden,
            Resolution::Inconsistent => Resolution::Inconsistent,
        },
    }
}

/// Resolving an instance step.  By identifier, the ancestor chain is
/// completed with one no-authorization ancestor query (a missing ancestor
/// row is a stored-data inconsistency); only the target is authorized.
/// The result carries (organization id, project id, instance id).
pub open spec fn resolve_instance(
    p: Policy,
    a: Actor,
    ds: DataStore,
    ik: InstanceKeySpec,
) -> Resolution<(u128, u128, u128)> {
    match ik {
        InstanceKeySpec::ById(i) => if !ds.has_live_row_id(ResourceType::Instance, i) {
            Resolution::NotFound(ResourceType::Instance, KeySpec::ById(i))
        } else {
            let row = ds.live_row_id(ResourceType::Instance, i);
            if !ds.has_live_row_id(ResourceType::Project, row.parent_id) {
                Resolution::Inconsistent
            } else {
                let prow = ds.live_row_id(ResourceType::Project, row.parent_id);
                match inst_outcome(p, a, ds, Action::Read, row.parent_id, prow.parent_id) {
                    Outcome::Allow => Resolution::Allowed((prow.parent_id, row.parent_id, i)),
                    Outcome::NotFound => Resolution::NotFound(
                        ResourceType::Instance,
                        KeySpec::ById(i),
                    ),
                    Outcome::Forbidden => Resolution::Forbidden,
                }
            }
        },
        InstanceKeySpec::ByName(pk, n) => match resolve_project(p, a, ds, pk) {
            Resolution::Allowed((oid, pid)) => if !ds.has_live_row_name(
                ResourceType::Instance,
                pid,
                n,
            ) {
                Resolution::NotFound(ResourceType::Instance, KeySpec::ByName(n))
            } else {
                let row = ds.live_row_name(ResourceType::Instance, pid, n);
                match inst_outcome(p, a, ds, Action::Read, pid, oid) {
                    Outcome::Allow => Resolution::Allowed((oid, pid, row.id)),
                    Outcome::NotFound => Resolution::NotFound(
                        ResourceType::Instance,
                        KeySpec::ByName(n),
                    ),
                    Outcome::Forbidden => Resolution::Forbidden,
                }
            },
            Resolution::NotFound(t, kk) => Resolution::NotFound(t, kk),
            Resolution::Forbidden => Resolution::Forbidden,
            Resolution::Inconsistent => Resolution::Inconsistent,
        },
    }
}

/// How many row queries resolving an organization step issues: always one.
pub open spec fn organization_queries(k: KeySpec) -> nat {
    1
}

/// How many row queries resolving a project step issues: its parent's, plus
/// its own — which is never issued if the parent fails.
pub open spec fn project_queries(p: Policy, a: Actor, ds: DataStore, pk: ProjectKeySpec) -> nat {
    match pk {
        ProjectKeySpec::ById(i) => 1,
        ProjectKeySpec::ByName(ok_, n) => organization_queries(ok_) + if resolve_organization(
            p,
            a,
            ds,
            ok_,
        ) is Allowed {
            1nat
        } else {
            0nat
        },
    }
}

/// How many row queries resolving an instance step issues.
pub open spec fn instance_queries(p: Policy, a: Actor, ds: DataStore, ik: InstanceKeySpec) -> nat {
    match ik {
        InstanceKeySpec::ById(i) => if ds.has_live_row_id(ResourceType::Instance, i) {
            2nat
        } else {
            1nat
        },
        InstanceKeySpec::ByName(pk, n) => project_queries(p, a, ds, pk) + if resolve_project(
            p,
            a,
            ds,
            pk,
        ) is Allowed {
            1nat
        } else {
            0nat
        },
    }
}

/// The root of every lookup chain: the operation's context and the
/// datastore the chain will read.
pub struct LookupPath<'a> {
    pub opctx: &'a OpContext,
    pub datastore: &'a DataStore,
}

/// One step of a lookup chain: located by name under a parent step `P`, or
/// located directly by identifier from the root.
pub enum Key<'a, P> {
    Name(P, &'a Name),
    Id(LookupPath<'a>, u128),
}

impl<'a, P> Key<'a, P> {
    /// The lookup record for this step: exactly what the caller supplied.
    pub fn lookup_type(&self) -> (r: LookupType)
        ensures
            (self matches Key::Name(_, n) ==> (r matches LookupType::ByName(s) && s == n.0)),
            (self matches Key::Id(_, i) ==> r == LookupType::ById(*i)),
    {
        match self {
            Key::Name(_, name) => LookupType::ByName(name.0.clone()),
            Key::Id(_, id) => LookupType::ById(*id),
        }
    }
}

/// A lookup chain ending at an organization.
pub struct Organization<'a> {
    pub key: Key<'a, LookupPath<'a>>,
}

/// A lookup chain ending at a project.
pub struct Project<'a> {
    pub key: Key<'a, Organization<'a>>,
}

/// A lookup chain ending at an instance.
pub struct Instance<'a> {
    pub key: Key<'a, Project<'a>>,
}

impl<'a> LookupPath<'a> {
    /// Starts a lookup chain at (operation context, datastore).
    pub fn new<'b, 'c>(opctx: &'b OpContext, datastore: &'c DataStore) -> (r: LookupPath<'a>) where
        'b: 'a,
        'c: 'a,

        ensures
            r.opctx == opctx,
            r.datastore == datastore,
    {
        LookupPath { opctx, datastore }
    }

    /// Descends to the organization with the given name.
    pub fn organization_name<'b, 'c>(self, name: &'b Name) -> (r: Organization<'c>) where
        'a: 'c,
        'b: 'c,

        ensures
            (r.key matches Key::Name(lp, n) && lp == self && n == name),
    {
        Organization { key: Key::Name(self, name) }
    }

    /// Descends to the organization with the given identifier.
    pub fn organization_id(self, id: u128) -> (r: Organization<'a>)
        ensures
            (r.key matches Key::Id(lp, i) && lp == self && i == id),
    {
        Organization { key: Key::Id(self, id) }
    }

    /// Descends to the project with the given identifier.
    pub fn project_id(self, id: u128) -> (r: Project<'a>)
        ensures
            (r.key matches Key::Id(lp, i) && lp == self && i == id),
    {
        Project { key: Key::Id(self, id) }
    }

    /// Descends to the instance with the given identifier.
    pub fn instance_id(self, id: u128) -> (r: Instance<'a>)
        ensures
            (r.key matches Key::Id(lp, i) && lp == self && i == id),
    {
        Instance { key: Key::Id(self, id) }
    }
}

/// The root of an organization chain.
pub open spec fn org_root<'a>(o: Organization<'a>) -> LookupPath<'a> {
    match o.key {
        Key::Name(lp, _) => lp,
        Key::Id(lp, _) => lp,
    }
}

/// The root of a project chain.
pub open spec fn proj_root<'a>(pr: Project<'a>) -> LookupPath<'a> {
    match pr.key {
        Key::Name(o, _) => org_root(o),
        Key::Id(lp, _) => lp,
    }
}

/// The root of an instance chain.
pub open spec fn inst_root<'a>(ins: Instance<'a>) -> LookupPath<'a> {
    match ins.key {
        Key::Name(pr, _) => proj_root(pr),
        Key::Id(lp, _) => lp,
    }
}

/// Ghost description of an organization chain's step.
pub open spec fn org_key_view(o: Organization) -> KeySpec {
    match o.key {
        Key::Name(_, n) => KeySpec::ByName(n.0@),
        Key::Id(_, i) => KeySpec::ById(i),
    }
}

/// Ghost description of a project chain.
pub open spec fn proj_key_view(pr: Project) -> ProjectKeySpec {
    match pr.key {
        Key::Name(o, n) => ProjectKeySpec::ByName(org_key_view(o), n.0@),
        Key::Id(_, i) => ProjectKeySpec::ById(i),
    }
}

/// Ghost description of an instance chain.
pub open spec fn inst_key_view(ins: Instance) -> InstanceKeySpec {
    match ins.key {
        Key::Name(pr, n) => InstanceKeySpec::ByName(proj_key_view(pr), n.0@),
        Key::Id(_, i) => InstanceKeySpec::ById(i),
    }
}

/// The policy a chain's root consults.
pub open spec fn path_policy(lp: LookupPath) -> Policy {
    lp.opctx.policy
}

/// The actor a chain's root acts for.
pub open spec fn path_actor(lp: LookupPath) -> Actor {
    lp.opctx.actor
}

/// The datastore a chain's root reads.
pub open spec fn path_ds(lp: LookupPath) -> DataStore {
    *lp.datastore
}

/// What fetching an organization chain returns, for each way its
/// resolution can go.
pub open spec fn org_fetch_post(o: Organization, r: Result<(ResourceHandle, Row), Error>) -> bool {
    let p = path_policy(org_root(o));
    let a = path_actor(org_root(o));
    let ds = path_ds(org_root(o));
    let k = org_key_view(o);
    match resolve_organization(p, a, ds, k) {
        Resolution::Allowed(oid) => (r matches Ok((h, row)) && is_org_handle(h, oid) && h.wf()
            && lookup_matches_key(h.lookup, k) && row == org_row_for(ds, k)),
        Resolution::NotFound(t, kk) => (r matches Err(Error::NotFound { resource_type, lookup })
            && resource_type == t && lookup_matches_key(lookup, kk)),
        Resolution::Forbidden => (r matches Err(e) && e is Forbidden),
        Resolution::Inconsistent => (r matches Err(e) && e is InternalError),
    }
}

impl<'a> Organization<'a> {
    /// The root this chain started from.
    pub fn lookup_root(&self) -> (r: &LookupPath<'a>)
        ensures
            *r == org_root(*self),
    {
        match &self.key {
            Key::Name(lp, _) => lp,
            Key::Id(lp, _) => lp,
        }
    }

    /// Descends to the project with the given name under this organization.
    pub fn project_name<'b, 'c>(self, name: &'b Name) -> (r: Project<'c>) where
        'a: 'c,
        'b: 'c,

        ensures
            (r.key matches Key::Name(o, n) && o == self && n == name),
    {
        Project { key: Key::Name(self, name) }
    }

    /// Resolves this chain and also reports how many row queries it issued.
    pub fn fetch_counted(&self) -> (r: (Result<(ResourceHandle, Row), Error>, usize))
        requires
            path_ds(org_root(*self)).wf(),
        ensures
            org_fetch_post(*self, r.0),
            r.1 == organization_queries(org_key_view(*self)),
    {
        let root = self.lookup_root();
        let opctx = root.opctx;
        let ds = root.datastore;
        let lt = self.key.lookup_type();
        let rowopt = match &self.key {
            Key::Name(_, name) => ds.fetch_by_name(
                ResourceType::Organization,
                FLEET_ID,
                &name.0,
            ),
            Key::Id(_, id) => ds.fetch_by_id(ResourceType::Organization, *id),
        };
        match rowopt {
            None => (
                (Err(Error::NotFound { resource_type: ResourceType::Organization, lookup: lt }), 1)
            ),
            Some(row) => {
                let h = ResourceHandle::child(
                    FLEET.handle(),
                    ResourceType::Organization,
                    PrimaryKey::Id(row.id),
                    lt,
                );
                proof {
                    lemma_org_handle_outcome(opctx.policy, opctx.actor, *ds, h, row.id);
                }
                match opctx.authorize(ds, Action::Read, &h) {
                    Ok(_) => ((Ok((h, row)), 1)),
                    Err(e) => ((Err(e), 1)),
                }
            },
        }
    }

    /// Resolves this chain: queries the datastore for the row the step
    /// names, builds the resource's handle, and authorizes the actor to
    /// read it; on failure the error is already shaped.
    pub fn fetch(&self) -> (r: Result<(ResourceHandle, Row), Error>)
        requires
            path_ds(org_root(*self)).wf(),
        ensures
            org_fetch_post(*self, r),
    {
        let (r, _queries) = self.fetch_counted();
        r
    }
}

/// The single-step description a project step fails with.
pub open spec fn proj_step_key(pk: ProjectKeySpec) -> KeySpec {
    match pk {
        ProjectKeySpec::ByName(_, n) => KeySpec::ByName(n),
        ProjectKeySpec::ById(i) => KeySpec::ById(i),
    }
}

/// The row a project step addresses (meaningful when its chain resolves).
pub open spec fn proj_row_for(p: Policy, a: Actor, ds: DataStore, pk: ProjectKeySpec) -> Row {
    match pk {
        ProjectKeySpec::ById(i) => ds.live_row_id(ResourceType::Project, i),
        ProjectKeySpec::ByName(ok_, n) => match resolve_organization(p, a, ds, ok_) {
            Resolution::Allowed(oid) => ds.live_row_name(ResourceType::Project, oid, n),
            _ => vstd::pervasive::arbitrary(),
        },
    }
}

/// What fetching a project chain returns, for each way its resolution can
/// go.  Success yields the organization's and the project's authorized
/// handles plus the project's row.
pub open spec fn proj_fetch_post(
    pr: Project,
    r: Result<(ResourceHandle, ResourceHandle, Row), Error>,
) -> bool {
    let p = path_policy(proj_root(pr));
    let a = path_actor(proj_root(pr));
    let ds = path_ds(proj_root(pr));
    let pk = proj_key_view(pr);
    match resolve_project(p, a, ds, pk) {
        Resolution::Allowed((oid, pid)) => (r matches Ok((ho, hp, row)) && is_org_handle(ho, oid)
            && ho.wf() && is_proj_handle(hp, pid, oid) && hp.wf() && lookup_matches_key(
            hp.lookup,
            proj_step_key(pk),
        ) && row == proj_row_for(p, a, ds, pk)),
        Resolution::NotFound(t, kk) => (r matches Err(Error::NotFound { resource_type, lookup })
            && resource_type == t && lookup_matches_key(lookup, kk)),
        Resolution::Forbidden => (r matches Err(e) && e is Forbidden),
        Resolution::Inconsistent => (r matches Err(e) && e is InternalError),
    }
}

impl<'a> Project<'a> {
    /// The root this chain started from.
    pub fn lookup_root(&self) -> (r: &LookupPath<'a>)
        ensures
            *r == proj_root(*self),
    {
        match &self.key {
            Key::Name(org, _) => org.lookup_root(),
            Key::Id(lp, _) => lp,
        }
    }

    /// Descends to the instance with the given name under this project.
    pub fn instance_name<'b, 'c>(self, name: &'b Name) -> (r: Instance<'c>) where
        'a: 'c,
        'b: 'c,

        ensures
            (r.key matches Key::Name(pr, n) && pr == self && n == name),
    {
        Instance { key: Key::Name(self, name) }
    }

    /// Resolves this chain and also reports how many row queries it issued.
    /// A by-name chain resolves and authorizes its organization first, so a
    /// denial there stops the walk before any project row is read.
    pub fn fetch_counted(&self) -> (r: (Result<(ResourceHandle, ResourceHandle, Row), Error>, usize))
        requires
            path_ds(proj_root(*self)).wf(),
        ensures
            proj_fetch_post(*self, r.0),
            r.1 == project_queries(
                path_policy(proj_root(*self)),
                path_actor(proj_root(*self)),
                path_ds(proj_root(*self)),
                proj_key_view(*self),
            ),
    {
        match &self.key {
            Key::Id(lp, id) => {
                let opctx = lp.opctx;
                let ds = lp.datastore;
                match ds.fetch_by_id(ResourceType::Project, *id) {
                    None => (
                        (
                            Err(
                                Error::NotFound {
                                    resource_type: ResourceType::Project,
                                    lookup: LookupType::ById(*id),
                                },
                            ),
                            1,
                        )
                    ),
                    Some(row) => {
                        let ho = ResourceHandle::child(
                            FLEET.handle(),
                            ResourceType::Organization,
                            PrimaryKey::Id(row.parent_id),
                            LookupType::ById(row.parent_id),
                        );
                        let hp = ResourceHandle::child(
                            ho.clone(),
                            ResourceType::Project,
                            PrimaryKey::Id(row.id),
                            LookupType::ById(*id),
                        );
                        proof {
                            lemma_proj_handle_outcome(
                                opctx.policy,
                                opctx.actor,
                                *ds,
                                hp,
                                row.id,
                                row.parent_id,
                            );
                        }
                        match opctx.authorize(ds, Action::Read, &hp) {
                            Ok(_) => ((Ok((ho, hp, row)), 1)),
                            Err(e) => ((Err(e), 1)),
                        }
                    },
                }
            },
            Key::Name(org, name) => {
                let (orgres, _c) = org.fetch_counted();
                match orgres {
                    Err(e) => ((Err(e), 1)),
                    Ok((ho, org_row)) => {
                        let root = org.lookup_root();
                        let opctx = root.opctx;
                        let ds = root.datastore;
                        match ds.fetch_by_name(ResourceType::Project, org_row.id, &name.0) {
                            None => (
                                (
                                    Err(
                                        Error::NotFound {
                                            resource_type: ResourceType::Project,
                                            lookup: LookupType::ByName(name.0.clone()),
                                        },
                                    ),
                                    2,
                                )
                            ),
                            Some(row) => {
                                let hp = ResourceHandle::child(
                                    ho.clone(),
                                    ResourceType::Project,
                                    PrimaryKey::Id(row.id),
                                    LookupType::ByName(name.0.clone()),
                                );
                                proof {
                                    lemma_proj_handle_outcome(
                                        opctx.policy,
                                        opctx.actor,
                                        *ds,
                                        hp,
                                        row.id,
                                        org_row.id,
                                    );
                                }
                                match opctx.authorize(ds, Action::Read, &hp) {
                                    Ok(_) => ((Ok((ho, hp, row)), 2)),
                                    Err(e) => ((Err(e), 2)),
                                }
                            },
                        }
                    },
                }
            },
        }
    }

    /// Resolves this chain into authorized handles plus the project's row.
    pub fn fetch(&self) -> (r: Result<(ResourceHandle, ResourceHandle, Row), Error>)
        requires
            path_ds(proj_root(*self)).wf(),
        ensures
            proj_fetch_post(*self, r),
    {
        let (r, _queries) = self.fetch_counted();
        r
    }
}

/// The single-step description an instance step fails with.
pub open spec fn inst_step_key(ik: InstanceKeySpec) -> KeySpec {
    match ik {
        InstanceKeySpec::ByName(_, n) => KeySpec::ByName(n),
        InstanceKeySpec::ById(i) => KeySpec::ById(i),
    }
}

/// The row an instance step addresses (meaningful when its chain resolves).
pub open spec fn inst_row_for(p: Policy, a: Actor, ds: DataStore, ik: InstanceKeySpec) -> Row {
    match ik {
        InstanceKeySpec::ById(i) => ds.live_row_id(ResourceType::Instance, i),
        InstanceKeySpec::ByName(pk, n) => match resolve_project(p, a, ds, pk) {
            Resolution::Allowed((oid, pid)) => ds.live_row_name(ResourceType::Instance, pid, n),
            _ => vstd::pervasive::arbitrary(),
        },
    }
}

/// What fetching an instance chain returns, for each way its resolution
/// can go.
pub open spec fn inst_fetch_post(
    ins: Instance,
    r: Result<(ResourceHandle, ResourceHandle, ResourceHandle, Row), Error>,
) -> bool {
    let p = path_policy(inst_root(ins));
    let a = path_actor(inst_root(ins));
    let ds = path_ds(inst_root(ins));
    let ik = inst_key_view(ins);
    match resolve_instance(p, a, ds, ik) {
        Resolution::Allowed((oid, pid, iid)) => (r matches Ok((ho, hp, hi, row)) && is_org_handle(
            ho,
            oid,
        ) && ho.wf() && is_proj_handle(hp, pid, oid) && hp.wf() && is_inst_handle(
            hi,
            iid,
            pid,
            oid,
        ) && hi.wf() && lookup_matches_key(hi.lookup, inst_step_key(ik)) && row == inst_row_for(
            p,
            a,
            ds,
            ik,
        )),
        Resolution::NotFound(t, kk) => (r matches Err(Error::NotFound { resource_type, lookup })
            && resource_type == t && lookup_matches_key(lookup, kk)),
        Resolution::Forbidden => (r matches Err(e) && e is Forbidden),
        Resolution::Inconsistent => (r matches Err(e) && e is InternalError),
    }
}

impl<'a> Instance<'a> {
    /// The root this chain started from.
    pub fn lookup_root(&self) -> (r: &LookupPath<'a>)
        ensures
            *r == inst_root(*self),
    {
        match &self.key {
            Key::Name(pr, _) => pr.lookup_root(),
            Key::Id(lp, _) => lp,
        }
    }

    /// Resolves this chain and also reports how many row queries it issued.
    /// By identifier, one extra no-authorization query completes the
    /// ancestor chain the role walk needs; intermediate ancestors are not
    /// re-authorized.  By name, the project chain resolves (and is
    /// authorized) first.
    pub fn fetch_counted(&self) -> (r: (
        Result<(ResourceHandle, ResourceHandle, ResourceHandle, Row), Error>,
        usize,
    ))
        requires
            path_ds(inst_root(*self)).wf(),
        ensures
            inst_fetch_post(*self, r.0),
            r.1 == instance_queries(
                path_policy(inst_root(*self)),
                path_actor(inst_root(*self)),
                path_ds(inst_root(*self)),
                inst_key_view(*self),
            ),
    {
        match &self.key {
            Key::Id(lp, id) => {
                let opctx = lp.opctx;
                let ds = lp.datastore;
                match ds.fetch_by_id(ResourceType::Instance, *id) {
                    None => (
                        (
                            Err(
                                Error::NotFound {
                                    resource_type: ResourceType::Instance,
                                    lookup: LookupType::ById(*id),
                                },
                            ),
                            1,
                        )
                    ),
                    Some(row) => {
                        match ds.fetch_by_id(ResourceType::Project, row.parent_id) {
                            None => (
                                (
                                    Err(
                                        Error::InternalError {
                                            internal_message:
                                                "instance row names a project row that is absent".to_owned(),
                                        },
                                    ),
                                    2,
                                )
                            ),
                            Some(prow) => {
                                let ho = ResourceHandle::child(
                                    FLEET.handle(),
                                    ResourceType::Organization,
                                    PrimaryKey::Id(prow.parent_id),
                                    LookupType::ById(prow.parent_id),
                                );
                                let hp = ResourceHandle::child(
                                    ho.clone(),
                                    ResourceType::Project,
                                    PrimaryKey::Id(prow.id),
                                    LookupType::ById(prow.id),
                                );
                                let hi = ResourceHandle::child(
                                    hp.clone(),
                                    ResourceType::Instance,
                                    PrimaryKey::Id(row.id),
                                    LookupType::ById(*id),
                                );
                                proof {
                                    lemma_inst_handle_outcome(
                                        opctx.policy,
                                        opctx.actor,
                                        *ds,
                                        hi,
                                        row.id,
                                        prow.id,
                                        prow.parent_id,
                                    );
                                }
                                match opctx.authorize(ds, Action::Read, &hi) {
                                    Ok(_) => ((Ok((ho, hp, hi, row)), 2)),
                                    Err(e) => ((Err(e), 2)),
                                }
                            },
                        }
                    },
                }
            },
            Key::Name(pr, name) => {
                let (prres, c) = pr.fetch_counted();
                match prres {
                    Err(e) => ((Err(e), c)),
                    Ok((ho, hp, proj_row)) => {
                        let root = pr.lookup_root();
                        let opctx = root.opctx;
                        let ds = root.datastore;
                        match ds.fetch_by_name(ResourceType::Instance, proj_row.id, &name.0) {
                            None => (
                                (
                                    Err(
                                        Error::NotFound {
                                            resource_type: ResourceType::Instance,
                                            lookup: LookupType::ByName(name.0.clone()),
                                        },
                                    ),
                                    c + 1,
                                )
                            ),
                            Some(row) => {
                                let hi = ResourceHandle::child(
                                    hp.clone(),
                                    ResourceType::Instance,
                                    PrimaryKey::Id(row.id),
                                    LookupType::ByName(name.0.clone()),
                                );
                                proof {
                                    let ghost oid = match resolve_project(
                                        opctx.policy,
                                        opctx.actor,
                                        *ds,
                                        proj_key_view(*pr),
                                    ) {
                                        Resolution::Allowed((oid, pid)) => oid,
                                        _ => vstd::pervasive::arbitrary(),
                                    };
                                    lemma_inst_handle_outcome(
                                        opctx.policy,
                                        opctx.actor,
                                        *ds,
                                        hi,
                                        row.id,
                                        proj_row.id,
                                        oid,
                                    );
                                }
                                match opctx.authorize(ds, Action::Read, &hi) {
                                    Ok(_) => ((Ok((ho, hp, hi, row)), c + 1)),
                                    Err(e) => ((Err(e), c + 1)),
                                }
                            },
                        }
                    },
                }
            },
        }
    }

    /// Resolves this chain into authorized handles plus the instance's row.
    pub fn fetch(&self) -> (r: Result<
        (ResourceHandle, ResourceHandle, ResourceHandle, Row),
        Error,
    >)
        requires
            path_ds(inst_root(*self)).wf(),
        ensures
            inst_fetch_post(*self, r),
    {
        let (r, _queries) = self.fetch_counted();
        r
    }
}

/// A three-level chain resolved by name succeeds only when every level is
/// independently readable: the organization, the project and the instance
/// each pass their own read authorization, and one row query is issued per
/// level.
pub proof fn lemma_by_name_chain_authorizes_every_level(
    p: Policy,
    a: Actor,
    ds: DataStore,
    ok_: KeySpec,
    pn: Seq<char>,
    in_: Seq<char>,
    oid: u128,
    pid: u128,
    iid: u128,
)
    requires
        resolve_instance(p, a, ds, InstanceKeySpec::ByName(ProjectKeySpec::ByName(ok_, pn), in_))
            == Resolution::<(u128, u128, u128)>::Allowed((oid, pid, iid)),
    ensures
        resolve_organization(p, a, ds, ok_) == Resolution::<u128>::Allowed(oid),
        org_outcome(p, a, ds, Action::Read, oid) == Outcome::Allow,
        proj_outcome(p, a, ds, Action::Read, pid, oid) == Outcome::Allow,
        inst_outcome(p, a, ds, Action::Read, pid, oid) == Outcome::Allow,
        instance_queries(p, a, ds, InstanceKeySpec::ByName(ProjectKeySpec::ByName(ok_, pn), in_))
            == 3,
{
}

/// Identity stability: resolving the same stored organization by name and
/// by identifier yields handles that compare equal, although their lookup
/// records differ — a handle's identity rests on the primary key alone.
pub proof fn lemma_identity_stability(
    p: Policy,
    a: Actor,
    ds: DataStore,
    n: Seq<char>,
    id: u128,
    h1: ResourceHandle,
    h2: ResourceHandle,
)
    requires
        ds.wf(),
        (resolve_organization(p, a, ds, KeySpec::ByName(n)) matches Resolution::Allowed(i1)
            && is_org_handle(h1, i1)),
        (resolve_organization(p, a, ds, KeySpec::ById(id)) matches Resolution::Allowed(i2)
            && is_org_handle(h2, i2)),
        ds.live_row_name(ResourceType::Organization, FLEET_ID, n) == ds.live_row_id(
            ResourceType::Organization,
            id,
        ),
    ensures
        handle_eq(h1, h2),
{
}

/// Short-circuit: a container-to-leaf chain resolved by name stops at the
/// first level the actor cannot read — the chain's outcome is that level's
/// own shaped error, and the datastore is never queried for the levels
/// below it (exactly one row query is issued, for the top container).
pub proof fn lemma_short_circuit(
    p: Policy,
    a: Actor,
    ds: DataStore,
    ok_: KeySpec,
    pn: Seq<char>,
    in_: Seq<char>,
)
    requires
        !(resolve_organization(p, a, ds, ok_) is Allowed),
    ensures
        (resolve_organization(p, a, ds, ok_) matches Resolution::NotFound(t, k) ==> resolve_instance(
            p,
            a,
            ds,
            InstanceKeySpec::ByName(ProjectKeySpec::ByName(ok_, pn), in_),
        ) == Resolution::<(u128, u128, u128)>::NotFound(t, k)),
        (resolve_organization(p, a, ds, ok_) is Forbidden ==> resolve_instance(
            p,
            a,
            ds,
            InstanceKeySpec::ByName(ProjectKeySpec::ByName(ok_, pn), in_),
        ) is Forbidden),
        instance_queries(p, a, ds, InstanceKeySpec::ByName(ProjectKeySpec::ByName(ok_, pn), in_))
            == 1,
{
}

} // verus!

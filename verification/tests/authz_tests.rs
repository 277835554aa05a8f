//! Tests of the authorization kernel: error shaping, inheritance, and the
//! bounded, kernel-free role accumulation.

use omicron_core::actor::Actor;
use omicron_core::authz::{Action, Error, OpContext, Policy, PolicyRule};
use omicron_core::datastore::{DataStore, GroupMembership, RoleAssignment, Row, SiloGroupRow};
use omicron_core::resource::{
    parent_type, ConsoleSessionList, Fleet, GlobalImageList, LookupType, PrimaryKey,
    ResourceHandle, ResourceType, CONSOLE_SESSION_LIST, FLEET, FLEET_ID, GLOBAL_IMAGE_LIST,
    MAX_DEPTH,
};
use omicron_core::roles::{load_roles_for_resource_tree, RoleSet};

const ORG_ID: u128 = 0x10;
const PROJ_ID: u128 = 0x20;
const INST_ID: u128 = 0x30;
const USER_ID: u128 = 0x99;

fn org_handle(id: u128) -> ResourceHandle {
    ResourceHandle::child(
        FLEET.handle(),
        ResourceType::Organization,
        PrimaryKey::Id(id),
        LookupType::ById(id),
    )
}

fn proj_handle(org: u128, proj: u128) -> ResourceHandle {
    ResourceHandle::child(
        org_handle(org),
        ResourceType::Project,
        PrimaryKey::Id(proj),
        LookupType::ById(proj),
    )
}

fn inst_handle(org: u128, proj: u128, inst: u128) -> ResourceHandle {
    ResourceHandle::child(
        proj_handle(org, proj),
        ResourceType::Instance,
        PrimaryKey::Id(inst),
        LookupType::ById(inst),
    )
}

fn viewer_policy() -> Policy {
    Policy {
        rules: vec![
            PolicyRule { role_name: "viewer".to_string(), action: Action::Read },
            PolicyRule { role_name: "admin".to_string(), action: Action::Read },
            PolicyRule { role_name: "admin".to_string(), action: Action::Modify },
            PolicyRule { role_name: "admin".to_string(), action: Action::Delete },
            PolicyRule { role_name: "admin".to_string(), action: Action::ListChildren },
            PolicyRule { role_name: "admin".to_string(), action: Action::CreateChild },
        ],
    }
}

fn datastore_with_grants(grants: Vec<RoleAssignment>) -> DataStore {
    DataStore {
        rows: vec![
            Row {
                resource_type: ResourceType::Organization,
                id: ORG_ID,
                parent_id: FLEET_ID,
                name: "acme".to_string(),
                deleted: false,
            },
            Row {
                resource_type: ResourceType::Project,
                id: PROJ_ID,
                parent_id: ORG_ID,
                name: "web".to_string(),
                deleted: false,
            },
            Row {
                resource_type: ResourceType::Instance,
                id: INST_ID,
                parent_id: PROJ_ID,
                name: "vm0".to_string(),
                deleted: false,
            },
        ],
        role_assignments: grants,
        group_memberships: vec![],
        silo_groups: vec![],
    }
}

fn grant(identity: u128, t: ResourceType, id: u128, role: &str) -> RoleAssignment {
    RoleAssignment {
        identity_id: identity,
        resource_type: t,
        resource_id: id,
        role_name: role.to_string(),
    }
}

/// Hiding: with no read access to a confidentiality-bearing resource,
/// every denied action yields the same not-found error.
#[test]
fn hiding_denies_all_actions_identically() {
    let ds = datastore_with_grants(vec![]);
    let opctx = OpContext { actor: Actor::User { id: USER_ID }, policy: viewer_policy() };
    let target = inst_handle(ORG_ID, PROJ_ID, INST_ID);
    for action in [
        Action::Read,
        Action::Modify,
        Action::Delete,
        Action::ListChildren,
        Action::CreateChild,
    ] {
        let err = opctx.authorize(&ds, action, &target).unwrap_err();
        assert!(matches!(
            err,
            Error::NotFound { resource_type: ResourceType::Instance, lookup: LookupType::ById(i) }
                if i == INST_ID
        ));
    }
}

/// Visible-forbidden: a reader denied another action sees a permission
/// error, never not-found.
#[test]
fn visible_denial_is_forbidden() {
    let ds = datastore_with_grants(vec![grant(
        USER_ID,
        ResourceType::Organization,
        ORG_ID,
        "viewer",
    )]);
    let opctx = OpContext { actor: Actor::User { id: USER_ID }, policy: viewer_policy() };
    let target = inst_handle(ORG_ID, PROJ_ID, INST_ID);
    assert!(opctx.authorize(&ds, Action::Read, &target).is_ok());
    let err = opctx.authorize(&ds, Action::Delete, &target).unwrap_err();
    assert!(matches!(err, Error::Forbidden));
}

/// Inheritance: a role granted on an ancestor allows the mapped actions on
/// a descendant that carries no grant of its own.
#[test]
fn ancestor_grant_allows_child_action() {
    let ds = datastore_with_grants(vec![grant(
        USER_ID,
        ResourceType::Organization,
        ORG_ID,
        "admin",
    )]);
    let opctx = OpContext { actor: Actor::User { id: USER_ID }, policy: viewer_policy() };
    let target = inst_handle(ORG_ID, PROJ_ID, INST_ID);
    assert!(opctx.authorize(&ds, Action::Modify, &target).is_ok());
    assert!(opctx.authorize(&ds, Action::Delete, &target).is_ok());
}

/// A grant held by a group extends to the group's members in the same
/// accumulation pass.
#[test]
fn group_grant_extends_to_member() {
    let group_id: u128 = 0x77;
    let mut ds = datastore_with_grants(vec![grant(
        group_id,
        ResourceType::Organization,
        ORG_ID,
        "viewer",
    )]);
    ds.group_memberships.push(GroupMembership { actor_id: USER_ID, group_id });
    let opctx = OpContext { actor: Actor::User { id: USER_ID }, policy: viewer_policy() };
    let target = org_handle(ORG_ID);
    assert!(opctx.authorize(&ds, Action::Read, &target).is_ok());
}

/// The root singleton carries no confidentiality value: a denial on it is
/// reported unchanged as forbidden.
#[test]
fn fleet_denial_is_not_hidden() {
    let ds = datastore_with_grants(vec![]);
    let opctx = OpContext { actor: Actor::User { id: USER_ID }, policy: viewer_policy() };
    let err = opctx.authorize(&ds, Action::Modify, &FLEET.handle()).unwrap_err();
    assert!(matches!(err, Error::Forbidden));
}

/// Termination: tree accumulation issues one direct-grant query per
/// role-bearing ancestor — three for an instance — and stays within the
/// hierarchy's depth bound however much data is stored.
#[test]
fn accumulation_query_count_is_bounded() {
    let mut grants = vec![];
    for i in 0..100u128 {
        grants.push(grant(USER_ID, ResourceType::Organization, ORG_ID, &format!("r{}", i)));
    }
    let ds = datastore_with_grants(grants);
    let actor = Actor::User { id: USER_ID };
    let mut roleset = RoleSet::new();
    let queries = load_roles_for_resource_tree(
        &ds,
        &actor,
        &inst_handle(ORG_ID, PROJ_ID, INST_ID),
        &mut roleset,
    );
    assert_eq!(queries, 3);
    let mut roleset2 = RoleSet::new();
    let q2 = load_roles_for_resource_tree(&ds, &actor, &FLEET.handle(), &mut roleset2);
    assert_eq!(q2, 1);
    assert!(queries <= 6);
}

/// Every resource kind reaches the fleet by following parents, within the
/// hierarchy's fixed depth: the tree has one root and no cycles.
#[test]
fn hierarchy_is_a_tree_rooted_at_fleet() {
    let kinds = [
        ResourceType::Fleet,
        ResourceType::ConsoleSessionList,
        ResourceType::GlobalImageList,
        ResourceType::Silo,
        ResourceType::SiloGroup,
        ResourceType::Organization,
        ResourceType::Project,
        ResourceType::Disk,
        ResourceType::Instance,
        ResourceType::NetworkInterface,
        ResourceType::Vpc,
        ResourceType::VpcRouter,
        ResourceType::RouterRoute,
        ResourceType::VpcSubnet,
        ResourceType::ConsoleSession,
        ResourceType::SiloUser,
        ResourceType::RoleBuiltin,
        ResourceType::UserBuiltin,
        ResourceType::Rack,
        ResourceType::Sled,
        ResourceType::UpdateAvailableArtifact,
        ResourceType::GlobalImage,
    ];
    for t in kinds {
        let mut current = t;
        let mut steps: u64 = 0;
        while let Some(parent) = parent_type(current) {
            current = parent;
            steps += 1;
            assert!(steps <= MAX_DEPTH);
        }
        assert_eq!(current, ResourceType::Fleet);
    }
}

/// The root and the synthetic collections are singletons: every value of
/// each compares equal, and so do their handles.
#[test]
fn singleton_resources_compare_equal() {
    assert!(FLEET == Fleet);
    assert!(GLOBAL_IMAGE_LIST == GlobalImageList);
    assert!(CONSOLE_SESSION_LIST == ConsoleSessionList);
    assert!(FLEET.handle() == FLEET.handle());
    assert!(CONSOLE_SESSION_LIST.handle() == CONSOLE_SESSION_LIST.handle());
    assert!(GLOBAL_IMAGE_LIST.handle() == GLOBAL_IMAGE_LIST.handle());
}

/// Synthetic collection resources carry no grants of their own: they
/// authorize through the fleet's roles, and a denial on them is reported
/// unchanged rather than hidden.
#[test]
fn synthetic_collections_inherit_fleet_roles() {
    let ds = datastore_with_grants(vec![grant(USER_ID, ResourceType::Fleet, FLEET_ID, "admin")]);
    let opctx = OpContext { actor: Actor::User { id: USER_ID }, policy: viewer_policy() };
    assert!(opctx.authorize(&ds, Action::CreateChild, &CONSOLE_SESSION_LIST.handle()).is_ok());
    assert!(opctx.authorize(&ds, Action::Read, &GLOBAL_IMAGE_LIST.handle()).is_ok());

    let no_grants = datastore_with_grants(vec![]);
    let err = opctx
        .authorize(&no_grants, Action::CreateChild, &CONSOLE_SESSION_LIST.handle())
        .unwrap_err();
    assert!(matches!(err, Error::Forbidden));
}

/// A handle exposes its single ancestor and, for role-bearing kinds, the
/// pair used to query its direct grants.
#[test]
fn handles_expose_hierarchy_and_grant_points() {
    let inst = inst_handle(ORG_ID, PROJ_ID, INST_ID);
    assert!(inst.db_resource().is_none());
    let proj = inst.parent().unwrap();
    assert_eq!(proj.db_resource(), Some((ResourceType::Project, PROJ_ID)));
    let org = proj.parent().unwrap();
    assert_eq!(org.db_resource(), Some((ResourceType::Organization, ORG_ID)));
    let fleet = org.parent().unwrap();
    assert_eq!(fleet.db_resource(), Some((ResourceType::Fleet, FLEET_ID)));
    assert!(fleet.parent().is_none());
}

fn silo_handle(id: u128) -> ResourceHandle {
    ResourceHandle::child(
        FLEET.handle(),
        ResourceType::Silo,
        PrimaryKey::Id(id),
        LookupType::ById(id),
    )
}

fn silo_datastore() -> (DataStore, OpContext) {
    let silo_id: u128 = 0x50;
    let ds = DataStore {
        rows: vec![Row {
            resource_type: ResourceType::Silo,
            id: silo_id,
            parent_id: FLEET_ID,
            name: "corp".to_string(),
            deleted: false,
        }],
        role_assignments: vec![grant(USER_ID, ResourceType::Silo, silo_id, "admin")],
        group_memberships: vec![],
        silo_groups: vec![
            SiloGroupRow {
                id: 0x70,
                silo_id,
                external_id: "engineering".to_string(),
                deleted: false,
            },
            SiloGroupRow { id: 0x71, silo_id, external_id: "sales".to_string(), deleted: true },
        ],
    };
    let opctx = OpContext { actor: Actor::User { id: USER_ID }, policy: viewer_policy() };
    (ds, opctx)
}

#[test]
fn silo_group_lookup_finds_live_group() {
    let (ds, opctx) = silo_datastore();
    let silo = silo_handle(0x50);
    let found = ds
        .silo_group_optional_lookup(&opctx, &silo, "engineering".to_string())
        .unwrap();
    assert_eq!(found.map(|g| g.id), Some(0x70));
    let absent = ds.silo_group_optional_lookup(&opctx, &silo, "sales".to_string()).unwrap();
    assert!(absent.is_none());
}

#[test]
fn silo_group_lookup_without_access_is_hidden() {
    let (mut ds, opctx) = silo_datastore();
    ds.role_assignments.clear();
    let silo = silo_handle(0x50);
    let err = ds
        .silo_group_optional_lookup(&opctx, &silo, "engineering".to_string())
        .unwrap_err();
    assert!(matches!(
        err,
        Error::NotFound { resource_type: ResourceType::Silo, lookup: LookupType::ById(i) }
            if i == 0x50
    ));
}

#[test]
fn silo_group_membership_replace_and_list() {
    let (mut ds, opctx) = silo_datastore();
    let silo = silo_handle(0x50);
    ds.silo_group_membership_replace_for_user(&opctx, USER_ID, vec![0x70, 0x71]).unwrap();
    let memberships = ds.silo_group_membership_for_user(&opctx, &silo, USER_ID).unwrap();
    let groups: Vec<u128> = memberships.iter().map(|m| m.group_id).collect();
    assert_eq!(groups, vec![0x70, 0x71]);
    ds.silo_group_membership_replace_for_user(&opctx, USER_ID, vec![0x71]).unwrap();
    let memberships = ds.silo_group_membership_for_user(&opctx, &silo, USER_ID).unwrap();
    let groups: Vec<u128> = memberships.iter().map(|m| m.group_id).collect();
    assert_eq!(groups, vec![0x71]);
}

#[test]
fn silo_group_delete_refuses_while_members_remain() {
    let (mut ds, opctx) = silo_datastore();
    let group = ResourceHandle::child(
        silo_handle(0x50),
        ResourceType::SiloGroup,
        PrimaryKey::Id(0x70),
        LookupType::ById(0x70),
    );
    ds.role_assignments.push(grant(USER_ID, ResourceType::Fleet, FLEET_ID, "admin"));
    ds.group_memberships.push(GroupMembership { actor_id: USER_ID, group_id: 0x70 });
    let err = ds.silo_group_delete(&opctx, &group).unwrap_err();
    assert!(matches!(err, Error::InvalidRequest { message } if message == "group still has memberships"));
    ds.group_memberships.clear();
    ds.silo_group_delete(&opctx, &group).unwrap();
    assert!(ds.silo_groups[0].deleted);
    assert!(!ds.silo_groups[1].deleted || ds.silo_groups[1].id != 0x70);
}

#[test]
fn silo_group_create_appends_row() {
    let (mut ds, opctx) = silo_datastore();
    let created = ds
        .silo_group_create(
            &opctx,
            SiloGroupRow {
                id: 0x90,
                silo_id: 0x50,
                external_id: "ops".to_string(),
                deleted: false,
            },
        )
        .unwrap();
    assert_eq!(created.id, 0x90);
    assert_eq!(ds.silo_groups.last().unwrap().external_id, "ops");
}

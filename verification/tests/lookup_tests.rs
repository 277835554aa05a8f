//! Tests of the lookup resolver: chain construction, resolution, identity
//! stability, short-circuiting, and the scenarios the error-shaping policy
//! is for.

use omicron_core::actor::Actor;
use omicron_core::authz::{Action, Error, OpContext, Policy, PolicyRule};
use omicron_core::datastore::{DataStore, RoleAssignment, Row};
use omicron_core::ids::parse_uuid;
use omicron_core::lookup::{Instance, Key, LookupPath, Name, Organization, Project};
use omicron_core::resource::{LookupType, ResourceType, FLEET_ID};

const ORG_ID: u128 = 0x10;
const OTHER_ORG_ID: u128 = 0x11;
const PROJ_ID: u128 = 0x20;
const INST_ID: u128 = 0x30;
const USER_ID: u128 = 0x99;

fn policy() -> Policy {
    Policy {
        rules: vec![
            PolicyRule { role_name: "viewer".to_string(), action: Action::Read },
            PolicyRule { role_name: "admin".to_string(), action: Action::Read },
            PolicyRule { role_name: "admin".to_string(), action: Action::Delete },
        ],
    }
}

fn datastore(grants: Vec<RoleAssignment>) -> DataStore {
    DataStore {
        rows: vec![
            Row {
                resource_type: ResourceType::Organization,
                id: ORG_ID,
                parent_id: FLEET_ID,
                name: "acme".to_string(),
                deleted: false,
            },
            Row {
                resource_type: ResourceType::Organization,
                id: OTHER_ORG_ID,
                parent_id: FLEET_ID,
                name: "other".to_string(),
                deleted: false,
            },
            Row {
                resource_type: ResourceType::Project,
                id: PROJ_ID,
                parent_id: ORG_ID,
                name: "web".to_string(),
                deleted: false,
            },
            Row {
                resource_type: ResourceType::Instance,
                id: INST_ID,
                parent_id: PROJ_ID,
                name: "vm0".to_string(),
                deleted: false,
            },
        ],
        role_assignments: grants,
        group_memberships: vec![],
        silo_groups: vec![],
    }
}

fn viewer_on_acme() -> Vec<RoleAssignment> {
    vec![RoleAssignment {
        identity_id: USER_ID,
        resource_type: ResourceType::Organization,
        resource_id: ORG_ID,
        role_name: "viewer".to_string(),
    }]
}

fn opctx() -> OpContext {
    OpContext { actor: Actor::User { id: USER_ID }, policy: policy() }
}

/// The chain builder records each step exactly as supplied, deferring
/// by-name steps to their parents.
#[test]
fn test_lookup() {
    let opctx = opctx();
    let datastore = datastore(viewer_on_acme());
    let org_name = Name("my-org".to_string());
    let project_name = Name("my-project".to_string());
    let instance_name = Name("my-instance".to_string());

    let leaf = LookupPath::new(&opctx, &datastore)
        .organization_name(&org_name)
        .project_name(&project_name)
        .instance_name(&instance_name);
    assert!(matches!(&leaf,
        Instance {
            key: Key::Name(Project {
                key: Key::Name(Organization {
                    key: Key::Name(_, o)
                }, p)
            }, i)
        }
        if **o == org_name && **p == project_name && **i == instance_name));

    let org_id = parse_uuid("006f29d9-0ff0-e2d2-a022-87e152440122").unwrap();
    assert_eq!(
        org_id,
        uuid::Uuid::parse_str("006f29d9-0ff0-e2d2-a022-87e152440122").unwrap().as_u128()
    );
    let leaf = LookupPath::new(&opctx, &datastore)
        .organization_id(org_id)
        .project_name(&project_name);
    assert!(matches!(&leaf, Project {
        key: Key::Name(Organization {
            key: Key::Id(LookupPath { .. }, o)
        }, p)
    } if *o == org_id && **p == project_name));
}

/// Identity stability: the same stored object reached by name and by
/// identifier yields handles that compare equal.
#[test]
fn handles_by_name_and_id_are_equal() {
    let opctx = opctx();
    let ds = datastore(viewer_on_acme());
    let name = Name("acme".to_string());
    let (h_by_name, row1) =
        LookupPath::new(&opctx, &ds).organization_name(&name).fetch().unwrap();
    let (h_by_id, row2) = LookupPath::new(&opctx, &ds).organization_id(ORG_ID).fetch().unwrap();
    assert_eq!(row1.id, row2.id);
    assert!(h_by_name == h_by_id);
    assert!(matches!(&h_by_name.lookup, LookupType::ByName(n) if n == "acme"));
    assert!(matches!(&h_by_id.lookup, LookupType::ById(i) if *i == ORG_ID));
}

/// Short-circuit: an actor who cannot read the top container fails there,
/// with the top container's own name in the error, and the datastore is
/// never queried for the levels below it.
#[test]
fn unreadable_container_short_circuits() {
    let opctx = opctx();
    let ds = datastore(vec![]);
    let org = Name("acme".to_string());
    let proj = Name("web".to_string());
    let inst = Name("vm0".to_string());
    let chain = LookupPath::new(&opctx, &ds)
        .organization_name(&org)
        .project_name(&proj)
        .instance_name(&inst);
    let (result, queries) = chain.fetch_counted();
    let err = result.unwrap_err();
    assert!(matches!(
        err,
        Error::NotFound { resource_type: ResourceType::Organization, lookup: LookupType::ByName(n) }
            if n == "acme"
    ));
    assert_eq!(queries, 1);
}

/// Scenario: a viewer on one container can resolve it and its leaf by
/// name, sees a visible permission error on a denied delete, and cannot
/// tell that a foreign container exists.
#[test]
fn viewer_scenario() {
    let opctx = opctx();
    let ds = datastore(viewer_on_acme());
    let acme = Name("acme".to_string());
    let web = Name("web".to_string());

    let (acme_handle, acme_row) =
        LookupPath::new(&opctx, &ds).organization_name(&acme).fetch().unwrap();
    assert_eq!(acme_row.id, ORG_ID);
    assert!(opctx.authorize(&ds, Action::Read, &acme_handle).is_ok());

    let (_org_handle, web_handle, web_row) = LookupPath::new(&opctx, &ds)
        .organization_name(&acme)
        .project_name(&web)
        .fetch()
        .unwrap();
    assert_eq!(web_row.id, PROJ_ID);

    let err = opctx.authorize(&ds, Action::Delete, &web_handle).unwrap_err();
    assert!(matches!(err, Error::Forbidden));

    let other = Name("other".to_string());
    let err = LookupPath::new(&opctx, &ds).organization_name(&other).fetch().unwrap_err();
    assert!(matches!(
        err,
        Error::NotFound { resource_type: ResourceType::Organization, lookup: LookupType::ByName(n) }
            if n == "other"
    ));
}

/// Scenario: the unauthenticated actor resolving anything by identifier
/// gets not-found for every kind, never a permission error.
#[test]
fn unauthenticated_resolution_is_not_found() {
    let opctx = OpContext { actor: Actor::Unauthenticated, policy: policy() };
    let ds = datastore(viewer_on_acme());

    let err = LookupPath::new(&opctx, &ds).organization_id(ORG_ID).fetch().unwrap_err();
    assert!(matches!(
        err,
        Error::NotFound { resource_type: ResourceType::Organization, lookup: LookupType::ById(i) }
            if i == ORG_ID
    ));

    let err = LookupPath::new(&opctx, &ds).project_id(PROJ_ID).fetch().unwrap_err();
    assert!(matches!(
        err,
        Error::NotFound { resource_type: ResourceType::Project, lookup: LookupType::ById(i) }
            if i == PROJ_ID
    ));

    let err = LookupPath::new(&opctx, &ds).instance_id(INST_ID).fetch().unwrap_err();
    assert!(matches!(
        err,
        Error::NotFound { resource_type: ResourceType::Instance, lookup: LookupType::ById(i) }
            if i == INST_ID
    ));
}

/// Resolving a full three-level chain by name authorizes and returns every
/// level's handle and the leaf's row.
#[test]
fn full_chain_resolves_for_admin() {
    let opctx = OpContext { actor: Actor::User { id: USER_ID }, policy: policy() };
    let ds = datastore(vec![RoleAssignment {
        identity_id: USER_ID,
        resource_type: ResourceType::Fleet,
        resource_id: FLEET_ID,
        role_name: "admin".to_string(),
    }]);
    let org = Name("acme".to_string());
    let proj = Name("web".to_string());
    let inst = Name("vm0".to_string());
    let (org_h, proj_h, inst_h, row) = LookupPath::new(&opctx, &ds)
        .organization_name(&org)
        .project_name(&proj)
        .instance_name(&inst)
        .fetch()
        .unwrap();
    assert_eq!(row.id, INST_ID);
    assert!(matches!(org_h.resource_type, ResourceType::Organization));
    assert!(matches!(proj_h.resource_type, ResourceType::Project));
    assert!(matches!(inst_h.resource_type, ResourceType::Instance));
}

/// Identifiers are scoped by kind: distinct kinds may reuse a numeric
/// identifier without confusing resolution.
#[test]
fn identifiers_are_scoped_by_kind() {
    let opctx = OpContext { actor: Actor::User { id: USER_ID }, policy: policy() };
    let shared_id: u128 = 0x1;
    let ds = DataStore {
        rows: vec![
            Row {
                resource_type: ResourceType::Organization,
                id: shared_id,
                parent_id: FLEET_ID,
                name: "acme".to_string(),
                deleted: false,
            },
            Row {
                resource_type: ResourceType::Project,
                id: shared_id,
                parent_id: shared_id,
                name: "web".to_string(),
                deleted: false,
            },
        ],
        role_assignments: vec![RoleAssignment {
            identity_id: USER_ID,
            resource_type: ResourceType::Organization,
            resource_id: shared_id,
            role_name: "viewer".to_string(),
        }],
        group_memberships: vec![],
        silo_groups: vec![],
    };
    let (org_h, org_row) = LookupPath::new(&opctx, &ds).organization_id(shared_id).fetch().unwrap();
    assert_eq!(org_row.name, "acme");
    let (_, proj_h, proj_row) =
        LookupPath::new(&opctx, &ds).project_id(shared_id).fetch().unwrap();
    assert_eq!(proj_row.name, "web");
    assert!(org_h != proj_h);
}

/// A deleted row is invisible to resolution.
#[test]
fn soft_deleted_rows_are_not_resolved() {
    let opctx = opctx();
    let mut ds = datastore(viewer_on_acme());
    ds.rows[0].deleted = true;
    let acme = Name("acme".to_string());
    let err = LookupPath::new(&opctx, &ds).organization_name(&acme).fetch().unwrap_err();
    assert!(matches!(err, Error::NotFound { .. }));
}

/// An instance row naming an absent project row is a stored-data
/// inconsistency and surfaces as an internal error, not as a caller
/// outcome.
#[test]
fn missing_ancestor_row_is_internal_error() {
    let opctx = opctx();
    let mut ds = datastore(viewer_on_acme());
    ds.rows.retain(|r| r.resource_type != ResourceType::Project);
    let err = LookupPath::new(&opctx, &ds).instance_id(INST_ID).fetch().unwrap_err();
    assert!(matches!(err, Error::InternalError { .. }));
}

/// An instance reached by identifier authorizes only the target, but the
/// returned handles still carry the full ancestor chain.
#[test]
fn instance_by_id_carries_ancestors() {
    let opctx = opctx();
    let ds = datastore(viewer_on_acme());
    let (org_h, proj_h, inst_h, row) =
        LookupPath::new(&opctx, &ds).instance_id(INST_ID).fetch().unwrap();
    assert_eq!(row.id, INST_ID);
    assert!(matches!(org_h.resource_type, ResourceType::Organization));
    assert!(matches!(proj_h.resource_type, ResourceType::Project));
    assert!(matches!(&inst_h.lookup, LookupType::ById(i) if *i == INST_ID));
}

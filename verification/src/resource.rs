//! The resource model: every authorizable kind of object, its place in the
//! fixed hierarchy rooted at the fleet, and the immutable handles that stand
//! for one resource during an authorization decision.

use vstd::prelude::*;

verus! {

/// Identifier of the one fleet (the global root of the hierarchy).
pub const FLEET_ID: u128 = 0x001de000_1334_4000_8000_000000000000;

/// Every kind of object the control plane can authorize, as a closed
/// enumeration.  The hierarchy over these kinds is a tree rooted at
/// `Fleet`; synthetic collection kinds (`ConsoleSessionList`,
/// `GlobalImageList`) have no backing row and exist only so collection-level
/// operations can be authorized.
#[derive(Clone, Copy, Debug, PartialEq, Eq, Structural, Hash)]
pub enum ResourceType {
    Fleet,
    ConsoleSessionList,
    GlobalImageList,
    Silo,
    SiloGroup,
    Organization,
    Project,
    Disk,
    Instance,
    NetworkInterface,
    Vpc,
    VpcRouter,
    RouterRoute,
    VpcSubnet,
    ConsoleSession,
    SiloUser,
    RoleBuiltin,
    UserBuiltin,
    Rack,
    Sled,
    UpdateAvailableArtifact,
    GlobalImage,
}

/// The one authorization parent of each resource kind, or `None` for the
/// root.  The structure is a tree: every kind other than `Fleet` has exactly
/// one parent, and following parents always reaches `Fleet`.
pub open spec fn parent_of(t: ResourceType) -> Option<ResourceType> {
    match t {
        ResourceType::Fleet => None,
        ResourceType::ConsoleSessionList => Some(ResourceType::Fleet),
        ResourceType::GlobalImageList => Some(ResourceType::Fleet),
        ResourceType::Silo => Some(ResourceType::Fleet),
        ResourceType::SiloGroup => Some(ResourceType::Silo),
        ResourceType::Organization => Some(ResourceType::Fleet),
        ResourceType::Project => Some(ResourceType::Organization),
        ResourceType::Disk => Some(ResourceType::Project),
        ResourceType::Instance => Some(ResourceType::Project),
        ResourceType::NetworkInterface => Some(ResourceType::Instance),
        ResourceType::Vpc => Some(ResourceType::Project),
        ResourceType::VpcRouter => Some(ResourceType::Vpc),
        ResourceType::RouterRoute => Some(ResourceType::VpcRouter),
        ResourceType::VpcSubnet => Some(ResourceType::Vpc),
        ResourceType::ConsoleSession => Some(ResourceType::Fleet),
        ResourceType::SiloUser => Some(ResourceType::Fleet),
        ResourceType::RoleBuiltin => Some(ResourceType::Fleet),
        ResourceType::UserBuiltin => Some(ResourceType::Fleet),
        ResourceType::Rack => Some(ResourceType::Fleet),
        ResourceType::Sled => Some(ResourceType::Fleet),
        ResourceType::UpdateAvailableArtifact => Some(ResourceType::Fleet),
        ResourceType::GlobalImage => Some(ResourceType::Fleet),
    }
}

/// Distance from the root: `Fleet` has depth 0, and every other kind sits
/// one level below its parent.
pub open spec fn depth_of(t: ResourceType) -> nat {
    match t {
        ResourceType::Fleet => 0,
        ResourceType::ConsoleSessionList => 1,
        ResourceType::GlobalImageList => 1,
        ResourceType::Silo => 1,
        ResourceType::SiloGroup => 2,
        ResourceType::Organization => 1,
        ResourceType::Project => 2,
        ResourceType::Disk => 3,
        ResourceType::Instance => 3,
        ResourceType::NetworkInterface => 4,
        ResourceType::Vpc => 3,
        ResourceType::VpcRouter => 4,
        ResourceType::RouterRoute => 5,
        ResourceType::VpcSubnet => 4,
        ResourceType::ConsoleSession => 1,
        ResourceType::SiloUser => 1,
        ResourceType::RoleBuiltin => 1,
        ResourceType::UserBuiltin => 1,
        ResourceType::Rack => 1,
        ResourceType::Sled => 1,
        ResourceType::UpdateAvailableArtifact => 1,
        ResourceType::GlobalImage => 1,
    }
}

/// The deepest kind sits five levels below the root, so no ancestor chain
/// has more than `MAX_DEPTH + 1` links.
pub const MAX_DEPTH: u64 = 5;

/// Whether roles may be granted directly on a resource of this kind.  All
/// other kinds only ever inherit the roles of their ancestors.
pub open spec fn roles_allowed(t: ResourceType) -> bool {
    match t {
        ResourceType::Fleet => true,
        ResourceType::Silo => true,
        ResourceType::Organization => true,
        ResourceType::Project => true,
        _ => false,
    }
}

/// Whether a denial on a resource of this kind must hide the resource's
/// existence.  The root singleton and the synthetic collection kinds carry
/// no confidentiality value, so a denial on them is reported unchanged.
pub open spec fn hides_existence(t: ResourceType) -> bool {
    match t {
        ResourceType::Fleet => false,
        ResourceType::ConsoleSessionList => false,
        ResourceType::GlobalImageList => false,
        _ => true,
    }
}

/// Each kind other than the root sits exactly one level below its parent.
pub proof fn lemma_parent_depth(t: ResourceType)
    ensures
        parent_of(t) matches Some(p) ==> depth_of(p) + 1 == depth_of(t),
        parent_of(t) is None ==> t == ResourceType::Fleet,
        depth_of(t) <= MAX_DEPTH,
{
}

/// The kind of an update artifact, part of one composite primary key.
#[derive(Clone, Copy, Debug, PartialEq, Eq, Structural, Hash)]
pub enum UpdateArtifactKind {
    Zone,
}

/// Per-kind identifier of one stored object.  The key is permanently stable
/// for the object's lifetime: renames never touch it.
#[derive(Debug)]
pub enum PrimaryKey {
    /// A single opaque 128-bit identifier (most kinds).
    Id(u128),
    /// A string key (console sessions).
    Str(String),
    /// A composite (name, name) key (builtin roles).
    StrPair(String, String),
    /// A composite (name, version, kind) key (update artifacts).
    Artifact(String, i64, UpdateArtifactKind),
}

/// What it means for two primary keys to identify the same object.
pub open spec fn pk_eq(a: PrimaryKey, b: PrimaryKey) -> bool {
    match (a, b) {
        (PrimaryKey::Id(x), PrimaryKey::Id(y)) => x == y,
        (PrimaryKey::Str(x), PrimaryKey::Str(y)) => x@ == y@,
        (PrimaryKey::StrPair(x0, x1), PrimaryKey::StrPair(y0, y1)) => x0@ == y0@ && x1@ == y1@,
        (PrimaryKey::Artifact(x0, x1, x2), PrimaryKey::Artifact(y0, y1, y2)) => x0@ == y0@
            && x1 == y1 && x2 == y2,
        _ => false,
    }
}

impl PartialEq for PrimaryKey {
    fn eq(&self, other: &Self) -> (r: bool) {
        match (self, other) {
            (PrimaryKey::Id(x), PrimaryKey::Id(y)) => *x == *y,
            (PrimaryKey::Str(x), PrimaryKey::Str(y)) => x.eq(y),
            (PrimaryKey::StrPair(x0, x1), PrimaryKey::StrPair(y0, y1)) => x0.eq(y0) && x1.eq(y1),
            (PrimaryKey::Artifact(x0, x1, x2), PrimaryKey::Artifact(y0, y1, y2)) => x0.eq(y0)
                && *x1 == *y1 && *x2 == *y2,
            _ => false,
        }
    }
}

impl vstd::std_specs::cmp::PartialEqSpecImpl for PrimaryKey {
    open spec fn obeys_eq_spec() -> bool {
        true
    }

    open spec fn eq_spec(&self, other: &Self) -> bool {
        pk_eq(*self, *other)
    }
}

impl Eq for PrimaryKey {}

impl Clone for PrimaryKey {
    fn clone(&self) -> (r: Self)
        ensures
            r == *self,
    {
        match self {
            PrimaryKey::Id(x) => PrimaryKey::Id(*x),
            PrimaryKey::Str(x) => PrimaryKey::Str(x.clone()),
            PrimaryKey::StrPair(x0, x1) => PrimaryKey::StrPair(x0.clone(), x1.clone()),
            PrimaryKey::Artifact(x0, x1, x2) => PrimaryKey::Artifact(x0.clone(), *x1, *x2),
        }
    }
}

/// How a resource was located: by the name the caller supplied, or by its
/// identifier.  Recorded only so error messages can name what the caller
/// actually asked for; identity never depends on it.
#[derive(Debug)]
pub enum LookupType {
    ByName(String),
    ById(u128),
}

/// Whether two lookup records describe the same request.
pub open spec fn lookup_matches(a: LookupType, b: LookupType) -> bool {
    match (a, b) {
        (LookupType::ByName(x), LookupType::ByName(y)) => x@ == y@,
        (LookupType::ById(x), LookupType::ById(y)) => x == y,
        _ => false,
    }
}

impl Clone for LookupType {
    fn clone(&self) -> (r: Self)
        ensures
            r == *self,
    {
        match self {
            LookupType::ByName(s) => LookupType::ByName(s.clone()),
            LookupType::ById(i) => LookupType::ById(*i),
        }
    }
}

/// The key shape each resource kind uses.
pub open spec fn key_matches(t: ResourceType, k: PrimaryKey) -> bool {
    match t {
        ResourceType::ConsoleSession => k is Str,
        ResourceType::RoleBuiltin => k is StrPair,
        ResourceType::UpdateAvailableArtifact => k is Artifact,
        _ => k is Id,
    }
}

/// An immutable handle standing for one resource during an authorization
/// decision: its kind, its primary key, how it was looked up, and its
/// parent's handle (none only for the root).  Equality uses the kind and
/// primary key alone, so two handles reached over different lookup paths to
/// the same object compare equal.
#[derive(Debug)]
pub struct ResourceHandle {
    pub resource_type: ResourceType,
    pub key: PrimaryKey,
    pub lookup: LookupType,
    pub parent: Option<Box<ResourceHandle>>,
}

impl ResourceHandle {
    /// A handle is well formed when its parent chain mirrors the fixed type
    /// hierarchy exactly, down to the root, and its key has the kind's shape.
    pub open spec fn wf(self) -> bool
        decreases self,
    {
        key_matches(self.resource_type, self.key) && match parent_of(self.resource_type) {
            None => self.parent is None,
            Some(pt) => match self.parent {
                Some(p) => p.resource_type == pt && p.wf(),
                None => false,
            },
        }
    }

    /// Whether the ancestor chain of this handle (itself included) passes
    /// through a resource of kind `t` with identifier `id`.
    pub open spec fn chain_contains(self, t: ResourceType, id: u128) -> bool
        decreases self,
    {
        (self.resource_type == t && self.key == PrimaryKey::Id(id)) || match self.parent {
            Some(p) => p.chain_contains(t, id),
            None => false,
        }
    }

    /// Whether `(t, id)` is a point on this handle's ancestor chain at which
    /// roles can be granted directly.
    pub open spec fn chain_grant_point(self, t: ResourceType, id: u128) -> bool {
        roles_allowed(t) && self.chain_contains(t, id)
    }

    /// How many direct-grant queries accumulating roles over this handle's
    /// ancestor chain performs: one per role-bearing ancestor.
    pub open spec fn chain_role_queries(self) -> nat
        decreases self,
    {
        (if roles_allowed(self.resource_type) && self.key is Id {
            1nat
        } else {
            0nat
        }) + match self.parent {
            Some(p) => p.chain_role_queries(),
            None => 0nat,
        }
    }

    /// Role accumulation over a well-formed chain is bounded by the
    /// hierarchy's depth, independent of any stored data.
    pub proof fn lemma_chain_role_queries_bounded(self)
        requires
            self.wf(),
        ensures
            self.chain_role_queries() <= depth_of(self.resource_type) + 1,
            self.chain_role_queries() <= MAX_DEPTH + 1,
        decreases self,
    {
        lemma_parent_depth(self.resource_type);
        match self.parent {
            Some(p) => p.lemma_chain_role_queries_bounded(),
            None => (),
        }
    }

    /// The parent in the hierarchy whose assigned roles can affect access
    /// to this resource, or none for the root.
    pub fn parent(&self) -> (r: Option<&ResourceHandle>)
        ensures
            r is Some <==> self.parent is Some,
            (r matches Some(q) ==> (self.parent matches Some(b) && *q == *b)),
    {
        match &self.parent {
            Some(b) => Some(&**b),
            None => None,
        }
    }

    /// If roles can be assigned to this resource, the (kind, identifier)
    /// pair used to query its direct grants; nothing for kinds that only
    /// inherit their ancestors' roles.
    pub fn db_resource(&self) -> (r: Option<(ResourceType, u128)>)
        ensures
            (r matches Some(p) ==> roles_allowed(self.resource_type) && p.0 == self.resource_type
                && self.key == PrimaryKey::Id(p.1)),
            r is None ==> !(roles_allowed(self.resource_type) && self.key is Id),
    {
        if crate::roles::roles_allowed_exec(self.resource_type) {
            match &self.key {
                PrimaryKey::Id(i) => Some((self.resource_type, *i)),
                _ => None,
            }
        } else {
            None
        }
    }

    /// Builds the handle of a child resource under an already-built parent
    /// handle.
    pub fn child(
        parent: ResourceHandle,
        t: ResourceType,
        key: PrimaryKey,
        lookup: LookupType,
    ) -> (r: ResourceHandle)
        requires
            parent.wf(),
            parent_of(t) == Some(parent.resource_type),
            key_matches(t, key),
        ensures
            r.wf(),
            r.resource_type == t,
            r.key == key,
            r.lookup == lookup,
            (r.parent matches Some(p) && *p == parent),
    {
        ResourceHandle { resource_type: t, key, lookup, parent: Some(Box::new(parent)) }
    }
}

impl Clone for ResourceHandle {
    fn clone(&self) -> (r: Self)
        ensures
            r == *self,
        decreases *self,
    {
        ResourceHandle {
            resource_type: self.resource_type,
            key: self.key.clone(),
            lookup: self.lookup.clone(),
            parent: match &self.parent {
                Some(p) => Some(Box::new((**p).clone())),
                None => None,
            },
        }
    }
}

/// Handle equality: same kind, same primary key; the lookup record and the
/// parent chain do not participate.
pub open spec fn handle_eq(a: ResourceHandle, b: ResourceHandle) -> bool {
    a.resource_type == b.resource_type && pk_eq(a.key, b.key)
}

impl PartialEq for ResourceHandle {
    fn eq(&self, other: &Self) -> (r: bool) {
        self.resource_type == other.resource_type && self.key == other.key
    }
}

impl vstd::std_specs::cmp::PartialEqSpecImpl for ResourceHandle {
    open spec fn obeys_eq_spec() -> bool {
        true
    }

    open spec fn eq_spec(&self, other: &Self) -> bool {
        handle_eq(*self, *other)
    }
}

impl Eq for ResourceHandle {}

/// Represents the one fleet — the global root — for authorization purposes.
/// There is exactly one fleet, so equality on this type is reflexive.
#[derive(Clone, Copy, Debug)]
pub struct Fleet;

/// Singleton value representing the [`Fleet`] itself.
pub const FLEET: Fleet = Fleet;

impl PartialEq for Fleet {
    fn eq(&self, _other: &Self) -> (r: bool) {
        true
    }
}

impl vstd::std_specs::cmp::PartialEqSpecImpl for Fleet {
    open spec fn obeys_eq_spec() -> bool {
        true
    }

    open spec fn eq_spec(&self, _other: &Self) -> bool {
        true
    }
}

impl Eq for Fleet {}

/// The root handle every well-formed chain ends in.
pub open spec fn is_fleet_handle(h: ResourceHandle) -> bool {
    &&& h.resource_type == ResourceType::Fleet
    &&& h.key == PrimaryKey::Id(FLEET_ID)
    &&& lookup_matches(h.lookup, LookupType::ById(FLEET_ID))
    &&& h.parent is None
}

impl Fleet {
    /// The authorization handle of the fleet itself.
    pub fn handle(&self) -> (r: ResourceHandle)
        ensures
            r.wf(),
            is_fleet_handle(r),
    {
        ResourceHandle {
            resource_type: ResourceType::Fleet,
            key: PrimaryKey::Id(FLEET_ID),
            lookup: LookupType::ById(FLEET_ID),
            parent: None,
        }
    }
}

/// Synthetic resource standing for the set of all console sessions, so that
/// collection-level operations (may this actor create a session?) can be
/// authorized without a backing row.  Roles are never granted on it
/// directly; it only inherits the fleet's.
#[derive(Clone, Copy, Debug, PartialEq, Eq, Structural)]
pub struct ConsoleSessionList;

/// Singleton value representing the [`ConsoleSessionList`].
pub const CONSOLE_SESSION_LIST: ConsoleSessionList = ConsoleSessionList;

/// Synthetic resource standing for the set of all global images.  There is
/// only one, so equality is reflexive.
#[derive(Clone, Copy, Debug)]
pub struct GlobalImageList;

/// Singleton value representing the [`GlobalImageList`].
pub const GLOBAL_IMAGE_LIST: GlobalImageList = GlobalImageList;

impl PartialEq for GlobalImageList {
    fn eq(&self, _other: &Self) -> (r: bool) {
        true
    }
}

impl vstd::std_specs::cmp::PartialEqSpecImpl for GlobalImageList {
    open spec fn obeys_eq_spec() -> bool {
        true
    }

    open spec fn eq_spec(&self, _other: &Self) -> bool {
        true
    }
}

impl Eq for GlobalImageList {}

/// The handle of a synthetic fleet-level collection: it carries the fleet's
/// identifier, so every such handle of one kind compares equal, and its only
/// grant point is the fleet itself.
pub open spec fn is_fleet_child_singleton_handle(h: ResourceHandle, t: ResourceType) -> bool {
    &&& h.resource_type == t
    &&& h.key == PrimaryKey::Id(FLEET_ID)
    &&& (h.parent matches Some(p) && is_fleet_handle(*p))
}

impl ConsoleSessionList {
    /// The authorization handle of the console-session collection.
    pub fn handle(&self) -> (r: ResourceHandle)
        ensures
            r.wf(),
            is_fleet_child_singleton_handle(r, ResourceType::ConsoleSessionList),
    {
        ResourceHandle::child(
            FLEET.handle(),
            ResourceType::ConsoleSessionList,
            PrimaryKey::Id(FLEET_ID),
            LookupType::ById(FLEET_ID),
        )
    }
}

impl GlobalImageList {
    /// The authorization handle of the global-image collection.
    pub fn handle(&self) -> (r: ResourceHandle)
        ensures
            r.wf(),
            is_fleet_child_singleton_handle(r, ResourceType::GlobalImageList),
    {
        ResourceHandle::child(
            FLEET.handle(),
            ResourceType::GlobalImageList,
            PrimaryKey::Id(FLEET_ID),
            LookupType::ById(FLEET_ID),
        )
    }
}

/// Executable view of [`hides_existence`].
pub fn kind_hides_existence(t: ResourceType) -> (r: bool)
    ensures
        r == hides_existence(t),
{
    match t {
        ResourceType::Fleet => false,
        ResourceType::ConsoleSessionList => false,
        ResourceType::GlobalImageList => false,
        _ => true,
    }
}

/// Executable view of [`parent_of`].
pub fn parent_type(t: ResourceType) -> (r: Option<ResourceType>)
    ensures
        r == parent_of(t),
{
    match t {
        ResourceType::Fleet => None,
        ResourceType::ConsoleSessionList => Some(ResourceType::Fleet),
        ResourceType::GlobalImageList => Some(ResourceType::Fleet),
        ResourceType::Silo => Some(ResourceType::Fleet),
        ResourceType::SiloGroup => Some(ResourceType::Silo),
        ResourceType::Organization => Some(ResourceType::Fleet),
        ResourceType::Project => Some(ResourceType::Organization),
        ResourceType::Disk => Some(ResourceType::Project),
        ResourceType::Instance => Some(ResourceType::Project),
        ResourceType::NetworkInterface => Some(ResourceType::Instance),
        ResourceType::Vpc => Some(ResourceType::Project),
        ResourceType::VpcRouter => Some(ResourceType::Vpc),
        ResourceType::RouterRoute => Some(ResourceType::VpcRouter),
        ResourceType::VpcSubnet => Some(ResourceType::Vpc),
        ResourceType::ConsoleSession => Some(ResourceType::Fleet),
        ResourceType::SiloUser => Some(ResourceType::Fleet),
        ResourceType::RoleBuiltin => Some(ResourceType::Fleet),
        ResourceType::UserBuiltin => Some(ResourceType::Fleet),
        ResourceType::Rack => Some(ResourceType::Fleet),
        ResourceType::Sled => Some(ResourceType::Fleet),
        ResourceType::UpdateAvailableArtifact => Some(ResourceType::Fleet),
        ResourceType::GlobalImage => Some(ResourceType::Fleet),
    }
}

} // verus!

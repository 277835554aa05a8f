//! A value-level model of the storage engine this core reads from: stored
//! rows with soft-delete semantics, role assignments, and group
//! memberships.  The storage engine itself is an external collaborator; the
//! functions here are its non-recursive ("no-authorization") query paths,
//! which never consult the authorization kernel — that structural fact is
//! the invariant that keeps role loading from recursing into authorization.

use vstd::prelude::*;

use crate::resource::ResourceType;

verus! {

/// One stored row: the object's kind, its stable identifier, the identifier
/// of its parent in the hierarchy, its current name, and whether it has been
/// soft-deleted.
#[derive(Debug)]
pub struct Row {
    pub resource_type: ResourceType,
    pub id: u128,
    pub parent_id: u128,
    pub name: String,
    pub deleted: bool,
}

impl Clone for Row {
    fn clone(&self) -> (r: Self)
        ensures
            r == *self,
    {
        Row {
            resource_type: self.resource_type,
            id: self.id,
            parent_id: self.parent_id,
            name: self.name.clone(),
            deleted: self.deleted,
        }
    }
}

/// One persisted role grant: the identity (a user or a group) holds `role_name`
/// on the resource `(resource_type, resource_id)`.  This core only reads
/// these; it never writes them.
#[derive(Debug)]
pub struct RoleAssignment {
    pub identity_id: u128,
    pub resource_type: ResourceType,
    pub resource_id: u128,
    pub role_name: String,
}

/// Membership of one actor in one group; grants held by the group extend to
/// its members.
#[derive(Clone, Copy, Debug)]
pub struct GroupMembership {
    pub actor_id: u128,
    pub group_id: u128,
}

/// One group of users within a silo, identified inside the silo by an
/// external id, with soft-delete semantics.
#[derive(Debug)]
pub struct SiloGroupRow {
    pub id: u128,
    pub silo_id: u128,
    pub external_id: String,
    pub deleted: bool,
}

impl Clone for SiloGroupRow {
    fn clone(&self) -> (r: Self)
        ensures
            r == *self,
    {
        SiloGroupRow {
            id: self.id,
            silo_id: self.silo_id,
            external_id: self.external_id.clone(),
            deleted: self.deleted,
        }
    }
}

/// Whether a row is the live row of kind `t` with identifier `id`.
pub open spec fn row_matches_id(r: Row, t: ResourceType, id: u128) -> bool {
    !r.deleted && r.resource_type == t && r.id == id
}

/// Whether a row is the live row of kind `t` named `n` under parent `parent`.
pub open spec fn row_matches_name(r: Row, t: ResourceType, parent: u128, n: Seq<char>) -> bool {
    !r.deleted && r.resource_type == t && r.parent_id == parent && r.name@ == n
}

/// The storage engine's state, as one plain value: each query below reads it
/// and nothing here ever performs an authorization decision.
#[derive(Debug)]
pub struct DataStore {
    pub rows: Vec<Row>,
    pub role_assignments: Vec<RoleAssignment>,
    pub group_memberships: Vec<GroupMembership>,
    pub silo_groups: Vec<SiloGroupRow>,
}

impl DataStore {
    /// Uniqueness of live rows: no two live rows of one kind share an
    /// identifier, and no two live rows of one kind under one parent share a
    /// name.
    pub open spec fn wf(self) -> bool {
        forall|i: int, j: int|
            #![trigger self.rows@[i], self.rows@[j]]
            0 <= i < self.rows@.len() && 0 <= j < self.rows@.len() && i != j
                && !self.rows@[i].deleted && !self.rows@[j].deleted
                && self.rows@[i].resource_type == self.rows@[j].resource_type ==> self.rows@[i].id
                != self.rows@[j].id && !(self.rows@[i].parent_id == self.rows@[j].parent_id
                && self.rows@[i].name@ == self.rows@[j].name@)
    }

    /// Whether a live row of kind `t` with identifier `id` exists.
    pub open spec fn has_live_row_id(self, t: ResourceType, id: u128) -> bool {
        exists|i: int|
            0 <= i < self.rows@.len() && row_matches_id(#[trigger] self.rows@[i], t, id)
    }

    /// The live row of kind `t` with identifier `id` (meaningful when
    /// [`Self::has_live_row_id`] holds; unique when [`Self::wf`] holds).
    pub open spec fn live_row_id(self, t: ResourceType, id: u128) -> Row {
        self.rows@[choose|i: int|
            0 <= i < self.rows@.len() && row_matches_id(#[trigger] self.rows@[i], t, id)]
    }

    /// Whether a live row of kind `t` named `n` under `parent` exists.
    pub open spec fn has_live_row_name(
        self,
        t: ResourceType,
        parent: u128,
        n: Seq<char>,
    ) -> bool {
        exists|i: int|
            0 <= i < self.rows@.len() && row_matches_name(#[trigger] self.rows@[i], t, parent, n)
    }

    /// The live row of kind `t` named `n` under `parent` (meaningful when
    /// [`Self::has_live_row_name`] holds; unique when [`Self::wf`] holds).
    pub open spec fn live_row_name(self, t: ResourceType, parent: u128, n: Seq<char>) -> Row {
        self.rows@[choose|i: int|
            0 <= i < self.rows@.len() && row_matches_name(#[trigger] self.rows@[i], t, parent, n)]
    }

    /// Fetches the non-deleted row with the given kind and identifier.  This
    /// is a pure read: absence is a result, not a fault, and no
    /// authorization decision is consulted.
    pub fn fetch_by_id(&self, t: ResourceType, id: u128) -> (r: Option<Row>)
        requires
            self.wf(),
        ensures
            r is Some <==> self.has_live_row_id(t, id),
            r matches Some(row) ==> row == self.live_row_id(t, id) && row_matches_id(row, t, id),
    {
        let n = self.rows.len();
        let mut i: usize = 0;
        while i < n
            invariant
                self.wf(),
                n == self.rows@.len(),
                i <= n,
                forall|k: int| 0 <= k < i ==> !row_matches_id(#[trigger] self.rows@[k], t, id),
            decreases n - i,
        {
            let row = &self.rows[i];
            if !row.deleted && row.resource_type == t && row.id == id {
                proof {
                    assert(row_matches_id(self.rows@[i as int], t, id));
                    let c = choose|ci: int|
                        0 <= ci < self.rows@.len() && row_matches_id(
                            #[trigger] self.rows@[ci],
                            t,
                            id,
                        );
                    assert(self.rows@[c] == self.rows@[i as int]) by {
                        if c != i as int {
                            assert(self.rows@[c].id != self.rows@[i as int].id);
                        }
                    }
                }
                return Some(row.clone());
            }
            i = i + 1;
        }
        None
    }

    /// Fetches the non-deleted row with the given kind and name under the
    /// given parent.  Same reading discipline as [`Self::fetch_by_id`].
    pub fn fetch_by_name(&self, t: ResourceType, parent: u128, name: &String) -> (r: Option<Row>)
        requires
            self.wf(),
        ensures
            r is Some <==> self.has_live_row_name(t, parent, name@),
            r matches Some(row) ==> row == self.live_row_name(t, parent, name@)
                && row_matches_name(row, t, parent, name@),
    {
        let n = self.rows.len();
        let mut i: usize = 0;
        while i < n
            invariant
                self.wf(),
                n == self.rows@.len(),
                i <= n,
                forall|k: int|
                    0 <= k < i ==> !row_matches_name(#[trigger] self.rows@[k], t, parent, name@),
            decreases n - i,
        {
            let row = &self.rows[i];
            if !row.deleted && row.resource_type == t && row.parent_id == parent && row.name.eq(
                name,
            ) {
                proof {
                    assert(row_matches_name(self.rows@[i as int], t, parent, name@));
                    let c = choose|ci: int|
                        0 <= ci < self.rows@.len() && row_matches_name(
                            #[trigger] self.rows@[ci],
                            t,
                            parent,
                            name@,
                        );
                    assert(self.rows@[c] == self.rows@[i as int]) by {
                        if c != i as int {
                            assert(self.rows@[c].id != self.rows@[i as int].id);
                        }
                    }
                }
                return Some(row.clone());
            }
            i = i + 1;
        }
        None
    }
}

} // verus!

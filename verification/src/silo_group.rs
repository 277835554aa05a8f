//! Datastore operations on silo groups.  The read paths re-invoke the
//! authorization kernel with an already-resolved silo handle; the mutation
//! paths show the intended discipline for writes: they take an
//! already-authorized handle as input and re-invoke the kernel for their
//! own action rather than re-deriving authorization.

use vstd::prelude::*;

use crate::authz::{eval_outcome, Action, Error, OpContext};
use crate::datastore::{DataStore, GroupMembership, SiloGroupRow};
use crate::resource::{lookup_matches, PrimaryKey, ResourceHandle, ResourceType};

verus! {

/// Whether a group row is the live group of `silo_id` with the external
/// identifier `ext`.
pub open spec fn group_matches(g: SiloGroupRow, silo_id: u128, ext: Seq<char>) -> bool {
    !g.deleted && g.silo_id == silo_id && g.external_id@ == ext
}

/// Uniqueness of live groups: no two live group rows share an identifier,
/// and within one silo no two live rows share an external identifier.
pub open spec fn groups_wf(ds: DataStore) -> bool {
    forall|i: int, j: int|
        #![trigger ds.silo_groups@[i], ds.silo_groups@[j]]
        0 <= i < ds.silo_groups@.len() && 0 <= j < ds.silo_groups@.len() && i != j
            && !ds.silo_groups@[i].deleted && !ds.silo_groups@[j].deleted ==> ds.silo_groups@[i].id
            != ds.silo_groups@[j].id && !(ds.silo_groups@[i].silo_id == ds.silo_groups@[j].silo_id
            && ds.silo_groups@[i].external_id@ == ds.silo_groups@[j].external_id@)
}

/// Whether a live group of `silo_id` with external identifier `ext` exists.
pub open spec fn has_live_group(ds: DataStore, silo_id: u128, ext: Seq<char>) -> bool {
    exists|i: int|
        0 <= i < ds.silo_groups@.len() && group_matches(#[trigger] ds.silo_groups@[i], silo_id, ext)
}

/// The live group of `silo_id` with external identifier `ext` (meaningful
/// when it exists; unique under [`groups_wf`]).
pub open spec fn live_group(ds: DataStore, silo_id: u128, ext: Seq<char>) -> SiloGroupRow {
    ds.silo_groups@[choose|i: int|
        0 <= i < ds.silo_groups@.len() && group_matches(
            #[trigger] ds.silo_groups@[i],
            silo_id,
            ext,
        )]
}

/// A group row after a soft delete of the live group `gid`.
pub open spec fn group_soft_deleted(g: SiloGroupRow, gid: u128) -> SiloGroupRow {
    if !g.deleted && g.id == gid {
        SiloGroupRow { deleted: true, ..g }
    } else {
        g
    }
}

impl DataStore {
    /// Looks up a silo's group by external identifier, after the kernel
    /// authorizes listing the silo's children on the already-resolved silo
    /// handle.  Absence is an ordinary `None`, not an error.
    pub fn silo_group_optional_lookup(
        &self,
        opctx: &OpContext,
        authz_silo: &ResourceHandle,
        external_id: String,
    ) -> (r: Result<Option<SiloGroupRow>, Error>)
        requires
            authz_silo.wf(),
            authz_silo.resource_type == ResourceType::Silo,
            groups_wf(*self),
        ensures
            r is Ok <==> eval_outcome(
                opctx.policy,
                opctx.actor,
                *self,
                Action::ListChildren,
                *authz_silo,
            ) is Allow,
            eval_outcome(opctx.policy, opctx.actor, *self, Action::ListChildren, *authz_silo)
                is Forbidden ==> r matches Err(Error::Forbidden),
            eval_outcome(opctx.policy, opctx.actor, *self, Action::ListChildren, *authz_silo)
                is NotFound ==> (r matches Err(Error::NotFound { resource_type, lookup })
                && resource_type == ResourceType::Silo && lookup_matches(
                lookup,
                authz_silo.lookup,
            )),
            (r matches Ok(og) ==> {
                let sid = authz_silo.key->Id_0;
                &&& (og is Some <==> has_live_group(*self, sid, external_id@))
                &&& (og matches Some(g) ==> g == live_group(*self, sid, external_id@))
            }),
    {
        if let Err(e) = opctx.authorize(self, Action::ListChildren, authz_silo) {
            return Err(e);
        }
        let sid = match &authz_silo.key {
            PrimaryKey::Id(i) => *i,
            _ => {
                proof {
                    assert(false);
                }
                return Ok(None);
            },
        };
        let n = self.silo_groups.len();
        let mut i: usize = 0;
        while i < n
            invariant
                groups_wf(*self),
                eval_outcome(opctx.policy, opctx.actor, *self, Action::ListChildren, *authz_silo)
                    is Allow,
                sid == authz_silo.key->Id_0,
                n == self.silo_groups@.len(),
                i <= n,
                forall|k: int|
                    0 <= k < i ==> !group_matches(
                        #[trigger] self.silo_groups@[k],
                        sid,
                        external_id@,
                    ),
            decreases n - i,
        {
            let g = &self.silo_groups[i];
            if !g.deleted && g.silo_id == sid && g.external_id.eq(&external_id) {
                proof {
                    assert(group_matches(self.silo_groups@[i as int], sid, external_id@));
                    let c = choose|ci: int|
                        0 <= ci < self.silo_groups@.len() && group_matches(
                            #[trigger] self.silo_groups@[ci],
                            sid,
                            external_id@,
                        );
                    assert(self.silo_groups@[c] == self.silo_groups@[i as int]) by {
                        if c != i as int {
                            assert(self.silo_groups@[c].id != self.silo_groups@[i as int].id);
                        }
                    }
                }
                return Ok(Some(g.clone()));
            }
            i = i + 1;
        }
        Ok(None)
    }

    /// Lists a user's group memberships, after the kernel authorizes
    /// listing the silo's children on the already-resolved silo handle.
    pub fn silo_group_membership_for_user(
        &self,
        opctx: &OpContext,
        authz_silo: &ResourceHandle,
        silo_user_id: u128,
    ) -> (r: Result<Vec<GroupMembership>, Error>)
        requires
            authz_silo.wf(),
            authz_silo.resource_type == ResourceType::Silo,
        ensures
            r is Ok <==> eval_outcome(
                opctx.policy,
                opctx.actor,
                *self,
                Action::ListChildren,
                *authz_silo,
            ) is Allow,
            eval_outcome(opctx.policy, opctx.actor, *self, Action::ListChildren, *authz_silo)
                is Forbidden ==> r matches Err(Error::Forbidden),
            eval_outcome(opctx.policy, opctx.actor, *self, Action::ListChildren, *authz_silo)
                is NotFound ==> (r matches Err(Error::NotFound { resource_type, lookup })
                && resource_type == ResourceType::Silo && lookup_matches(
                lookup,
                authz_silo.lookup,
            )),
            (r matches Ok(v) ==> v@ == self.group_memberships@.filter(
                |m: GroupMembership| m.actor_id == silo_user_id,
            )),
    {
        if let Err(e) = opctx.authorize(self, Action::ListChildren, authz_silo) {
            return Err(e);
        }
        let n = self.group_memberships.len();
        let mut out: Vec<GroupMembership> = Vec::new();
        let mut i: usize = 0;
        proof {
            assert(self.group_memberships@.subrange(0, 0).filter(
                |m: GroupMembership| m.actor_id == silo_user_id,
            ) =~= Seq::<GroupMembership>::empty());
        }
        while i < n
            invariant
                n == self.group_memberships@.len(),
                i <= n,
                out@ == self.group_memberships@.subrange(0, i as int).filter(
                    |m: GroupMembership| m.actor_id == silo_user_id,
                ),
            decreases n - i,
        {
            let ghost pre = self.group_memberships@.subrange(0, i as int);
            let ghost post = self.group_memberships@.subrange(0, i + 1);
            let m = self.group_memberships[i];
            if m.actor_id == silo_user_id {
                out.push(m);
            }
            proof {
                reveal_with_fuel(Seq::<GroupMembership>::filter, 2);
                assert(post.drop_last() =~= pre);
                assert(post.last() == self.group_memberships@[i as int]);
            }
            i = i + 1;
        }
        proof {
            assert(self.group_memberships@.subrange(0, n as int) =~= self.group_memberships@);
        }
        Ok(out)
    }

    /// Creates a silo group by appending its row; the caller authorizes
    /// beforehand, as part of resolving the silo.
    pub fn silo_group_create(&mut self, _opctx: &OpContext, silo_group: SiloGroupRow) -> (r: Result<
        SiloGroupRow,
        Error,
    >)
        ensures
            final(self).silo_groups@ == old(self).silo_groups@.push(silo_group),
            final(self).rows == old(self).rows,
            final(self).role_assignments == old(self).role_assignments,
            final(self).group_memberships == old(self).group_memberships,
            (r matches Ok(g) && g == silo_group),
    {
        let created = silo_group.clone();
        self.silo_groups.push(silo_group);
        Ok(created)
    }

    /// Replaces a user's group memberships in one step: every membership
    /// the user had is dropped and the given ones are added, so a crash
    /// cannot leave a mixture of old and new.
    pub fn silo_group_membership_replace_for_user(
        &mut self,
        _opctx: &OpContext,
        silo_user_id: u128,
        silo_group_ids: Vec<u128>,
    ) -> (r: Result<(), Error>)
        ensures
            final(self).group_memberships@ == old(self).group_memberships@.filter(
                |m: GroupMembership| m.actor_id != silo_user_id,
            ) + silo_group_ids@.map_values(
                |g: u128| GroupMembership { actor_id: silo_user_id, group_id: g },
            ),
            final(self).rows == old(self).rows,
            final(self).role_assignments == old(self).role_assignments,
            final(self).silo_groups == old(self).silo_groups,
            r is Ok,
    {
        let n = self.group_memberships.len();
        let mut out: Vec<GroupMembership> = Vec::new();
        let mut i: usize = 0;
        proof {
            assert(self.group_memberships@.subrange(0, 0).filter(
                |m: GroupMembership| m.actor_id != silo_user_id,
            ) =~= Seq::<GroupMembership>::empty());
        }
        while i < n
            invariant
                n == self.group_memberships@.len(),
                i <= n,
                out@ == self.group_memberships@.subrange(0, i as int).filter(
                    |m: GroupMembership| m.actor_id != silo_user_id,
                ),
            decreases n - i,
        {
            let ghost pre = self.group_memberships@.subrange(0, i as int);
            let ghost post = self.group_memberships@.subrange(0, i + 1);
            let m = self.group_memberships[i];
            if m.actor_id != silo_user_id {
                out.push(m);
            }
            proof {
                reveal_with_fuel(Seq::<GroupMembership>::filter, 2);
                assert(post.drop_last() =~= pre);
                assert(post.last() == self.group_memberships@[i as int]);
            }
            i = i + 1;
        }
        proof {
            assert(self.group_memberships@.subrange(0, n as int) =~= self.group_memberships@);
        }
        let ghost kept = self.group_memberships@.filter(
            |m: GroupMembership| m.actor_id != silo_user_id,
        );
        let gn = silo_group_ids.len();
        let mut j: usize = 0;
        while j < gn
            invariant
                gn == silo_group_ids@.len(),
                j <= gn,
                out@ == kept + silo_group_ids@.subrange(0, j as int).map_values(
                    |g: u128| GroupMembership { actor_id: silo_user_id, group_id: g },
                ),
            decreases gn - j,
        {
            let ghost pre = silo_group_ids@.subrange(0, j as int);
            let ghost post = silo_group_ids@.subrange(0, j + 1);
            out.push(GroupMembership { actor_id: silo_user_id, group_id: silo_group_ids[j] });
            proof {
                assert(post.drop_last() =~= pre);
                assert(post.map_values(
                    |g: u128| GroupMembership { actor_id: silo_user_id, group_id: g },
                ) =~= pre.map_values(
                    |g: u128| GroupMembership { actor_id: silo_user_id, group_id: g },
                ).push(
                    GroupMembership {
                        actor_id: silo_user_id,
                        group_id: silo_group_ids@[j as int],
                    },
                ));
            }
            j = j + 1;
        }
        proof {
            assert(silo_group_ids@.subrange(0, gn as int) =~= silo_group_ids@);
        }
        self.group_memberships = out;
        Ok(())
    }

    /// Deletes a silo group, after the kernel authorizes the delete on the
    /// already-resolved group handle.  A group that still has memberships
    /// is not deleted; otherwise its row is soft-deleted in place.
    pub fn silo_group_delete(&mut self, opctx: &OpContext, authz_silo_group: &ResourceHandle) -> (r:
        Result<(), Error>)
        requires
            authz_silo_group.wf(),
            authz_silo_group.resource_type == ResourceType::SiloGroup,
        ensures
            ({
                let pre = *old(self);
                let post = *final(self);
                let gate = eval_outcome(
                    opctx.policy,
                    opctx.actor,
                    pre,
                    Action::Delete,
                    *authz_silo_group,
                );
                let gid = authz_silo_group.key->Id_0;
                let membership_left = exists|k: int|
                    0 <= k < pre.group_memberships@.len() && (
                    #[trigger] pre.group_memberships@[k]).group_id == gid;
                &&& (gate is Forbidden ==> (r matches Err(Error::Forbidden)) && post == pre)
                &&& (gate is NotFound ==> (r matches Err(Error::NotFound { resource_type, lookup })
                    && resource_type == ResourceType::SiloGroup && lookup_matches(
                    lookup,
                    authz_silo_group.lookup,
                )) && post == pre)
                &&& (gate is Allow && membership_left ==> (r matches Err(
                    Error::InvalidRequest { message },
                ) && message@ == "group still has memberships"@) && post == pre)
                &&& (gate is Allow && !membership_left ==> r is Ok && post.silo_groups@.len()
                    == pre.silo_groups@.len() && (forall|k: int|
                    0 <= k < pre.silo_groups@.len() ==> post.silo_groups@[k] == group_soft_deleted(
                        #[trigger] pre.silo_groups@[k],
                        gid,
                    )) && post.rows == pre.rows && post.role_assignments == pre.role_assignments
                    && post.group_memberships == pre.group_memberships)
            }),
    {
        if let Err(e) = opctx.authorize(&*self, Action::Delete, authz_silo_group) {
            return Err(e);
        }
        let gid = match &authz_silo_group.key {
            PrimaryKey::Id(i) => *i,
            _ => {
                proof {
                    assert(false);
                }
                return Ok(());
            },
        };
        let n = self.group_memberships.len();
        let mut i: usize = 0;
        while i < n
            invariant
                *self == *old(self),
                eval_outcome(
                    opctx.policy,
                    opctx.actor,
                    *old(self),
                    Action::Delete,
                    *authz_silo_group,
                ) is Allow,
                gid == authz_silo_group.key->Id_0,
                n == self.group_memberships@.len(),
                i <= n,
                forall|k: int|
                    0 <= k < i ==> (#[trigger] self.group_memberships@[k]).group_id != gid,
            decreases n - i,
        {
            if self.group_memberships[i].group_id == gid {
                return Err(
                    Error::InvalidRequest { message: "group still has memberships".to_owned() },
                );
            }
            i = i + 1;
        }
        let gn = self.silo_groups.len();
        let mut out: Vec<SiloGroupRow> = Vec::new();
        let mut j: usize = 0;
        while j < gn
            invariant
                gn == self.silo_groups@.len(),
                j <= gn,
                out@.len() == j,
                forall|k: int|
                    0 <= k < j ==> out@[k] == group_soft_deleted(
                        #[trigger] self.silo_groups@[k],
                        gid,
                    ),
            decreases gn - j,
        {
            let g = &self.silo_groups[j];
            if !g.deleted && g.id == gid {
                out.push(
                    SiloGroupRow {
                        id: g.id,
                        silo_id: g.silo_id,
                        external_id: g.external_id.clone(),
                        deleted: true,
                    },
                );
            } else {
                out.push(g.clone());
            }
            j = j + 1;
        }
        self.silo_groups = out;
        Ok(())
    }
}

} // verus!

//! An in-memory model of the relational store the workflow runs against:
//! group rows, membership rows, an identity counter, and a reachability
//! flag. Its operations are the storage interface the workflow consumes:
//! `find`, `insert_group`, `insert_membership`.

use vstd::prelude::*;

use crate::model::{
    Group, GroupView, Membership, MembershipView, matches_of, memberships_of,
    lemma_matches_of_push, lemma_memberships_of_push,
};

verus! {

/// Spec-level image of the storage engine's visible state.
#[verifier::ext_equal]
pub struct StorageModel {
    /// Group rows, in insertion order.
    pub groups: Seq<GroupView>,
    /// Membership rows, in insertion order.
    pub memberships: Seq<MembershipView>,
    /// The identity the next inserted group receives.
    pub next_id: u64,
    /// Whether the engine can currently be reached.
    pub available: bool,
}

/// Internal consistency of a storage state: every stored identity was
/// assigned below the identity counter, so the counter's value is fresh.
pub open spec fn storage_wf(s: StorageModel) -> bool {
    &&& forall|i: int| 0 <= i < s.groups.len() ==> (#[trigger] s.groups[i]).id < s.next_id
    &&& forall|i: int|
        0 <= i < s.memberships.len() ==> (#[trigger] s.memberships[i]).group_id < s.next_id
}

/// The groups of a sequence of rows, as spec values.
pub open spec fn groups_view(gs: Seq<Group>) -> Seq<GroupView> {
    gs.map_values(|g: Group| g@)
}

/// The memberships of a sequence of rows, as spec values.
pub open spec fn memberships_view(ms: Seq<Membership>) -> Seq<MembershipView> {
    ms.map_values(|m: Membership| m@)
}

/// The storage engine's state, as the workflow observes it.
pub struct Storage {
    groups: Vec<Group>,
    memberships: Vec<Membership>,
    next_id: u64,
    available: bool,
}

impl View for Storage {
    type V = StorageModel;

    closed spec fn view(&self) -> StorageModel {
        StorageModel {
            groups: groups_view(self.groups@),
            memberships: memberships_view(self.memberships@),
            next_id: self.next_id,
            available: self.available,
        }
    }
}

impl Storage {
    /// Internal consistency; established by `new` and preserved by every
    /// operation.
    pub open spec fn wf(&self) -> bool {
        storage_wf(self@)
    }

    /// An empty, reachable store.
    pub fn new() -> (s: Storage)
        ensures
            s@.groups == Seq::<GroupView>::empty(),
            s@.memberships == Seq::<MembershipView>::empty(),
            s@.next_id == 1,
            s@.available,
            s.wf(),
    {
        let s = Storage { groups: Vec::new(), memberships: Vec::new(), next_id: 1, available: true };
        proof {
            assert(s@.groups =~= Seq::<GroupView>::empty());
            assert(s@.memberships =~= Seq::<MembershipView>::empty());
        }
        s
    }

    /// Models whether the engine can be reached; the rows are untouched.
    pub fn set_available(&mut self, available: bool)
        ensures
            final(self)@ == (StorageModel { available, ..old(self)@ }),
            old(self).wf() ==> final(self).wf(),
    {
        self.available = available;
    }

    /// Whether the engine can currently be reached.
    pub fn is_available(&self) -> (b: bool)
        ensures
            b == self@.available,
    {
        self.available
    }

    /// The existence query: every group row matching `(name, creator_id)`,
    /// in storage order.
    pub fn find(&self, name: &String, creator_id: &String) -> (r: Vec<Group>)
        requires
            self@.available,
        ensures
            groups_view(r@) == matches_of(self@.groups, name@, creator_id@),
    {
        let mut r: Vec<Group> = Vec::new();
        let mut i: usize = 0;
        proof {
            assert(groups_view(r@) =~= Seq::<GroupView>::empty());
            assert(self@.groups.take(0) =~= Seq::<GroupView>::empty());
        }
        while i < self.groups.len()
            invariant
                i <= self.groups.len(),
                self@.groups.len() == self.groups.len(),
                groups_view(r@) == matches_of(self@.groups.take(i as int), name@, creator_id@),
            decreases self.groups.len() - i,
        {
            let ghost prev = r@;
            let g = &self.groups[i];
            if g.name == *name && g.creator_id == *creator_id {
                r.push(g.clone());
            }
            proof {
                let gs = self@.groups;
                assert(gs.take(i as int + 1) =~= gs.take(i as int).push(gs[i as int]));
                lemma_matches_of_push(gs.take(i as int), name@, creator_id@, gs[i as int]);
                if g.name@ == name@ && g.creator_id@ == creator_id@ {
                    assert(groups_view(r@) =~= groups_view(prev).push(gs[i as int]));
                } else {
                    assert(groups_view(r@) =~= groups_view(prev));
                }
            }
            i += 1;
        }
        proof {
            assert(self@.groups.take(self.groups.len() as int) =~= self@.groups);
        }
        r
    }

    /// Inserts a new group row; the engine assigns it the next identity and
    /// returns it.
    pub fn insert_group(&mut self, name: &String, creator_id: &String) -> (id: u64)
        requires
            old(self).wf(),
            old(self)@.available,
            old(self)@.next_id < u64::MAX,
        ensures
            id == old(self)@.next_id,
            final(self)@.groups == old(self)@.groups.push(
                GroupView { id, name: name@, creator_id: creator_id@ },
            ),
            final(self)@.memberships == old(self)@.memberships,
            final(self)@.next_id == old(self)@.next_id + 1,
            final(self)@.available == old(self)@.available,
            final(self).wf(),
    {
        let id = self.next_id;
        self.groups.push(Group { id, name: name.clone(), creator_id: creator_id.clone() });
        self.next_id = id + 1;
        proof {
            assert(groups_view(self.groups@) =~= groups_view(old(self).groups@).push(
                GroupView { id, name: name@, creator_id: creator_id@ },
            ));
        }
        id
    }

    /// Inserts a membership row for an already-allocated group identity.
    pub fn insert_membership(&mut self, group_id: u64, user_id: &String)
        requires
            old(self).wf(),
            old(self)@.available,
            group_id < old(self)@.next_id,
        ensures
            final(self)@.memberships == old(self)@.memberships.push(
                MembershipView { group_id, user_id: user_id@ },
            ),
            final(self)@.groups == old(self)@.groups,
            final(self)@.next_id == old(self)@.next_id,
            final(self)@.available == old(self)@.available,
            final(self).wf(),
    {
        self.memberships.push(Membership { group_id, user_id: user_id.clone() });
        proof {
            assert(memberships_view(self.memberships@) =~= memberships_view(
                old(self).memberships@,
            ).push(MembershipView { group_id, user_id: user_id@ }));
        }
    }

    /// The membership query: every membership row of the group, in storage
    /// order.
    pub fn members_of(&self, group_id: u64) -> (r: Vec<Membership>)
        requires
            self@.available,
        ensures
            memberships_view(r@) == memberships_of(self@.memberships, group_id),
    {
        let mut r: Vec<Membership> = Vec::new();
        let mut i: usize = 0;
        proof {
            assert(memberships_view(r@) =~= Seq::<MembershipView>::empty());
            assert(self@.memberships.take(0) =~= Seq::<MembershipView>::empty());
        }
        while i < self.memberships.len()
            invariant
                i <= self.memberships.len(),
                self@.memberships.len() == self.memberships.len(),
                memberships_view(r@) == memberships_of(self@.memberships.take(i as int), group_id),
            decreases self.memberships.len() - i,
        {
            let ghost prev = r@;
            let m = &self.memberships[i];
            if m.group_id == group_id {
                r.push(m.clone());
            }
            proof {
                let ms = self@.memberships;
                assert(ms.take(i as int + 1) =~= ms.take(i as int).push(ms[i as int]));
                lemma_memberships_of_push(ms.take(i as int), group_id, ms[i as int]);
                if m.group_id == group_id {
                    assert(memberships_view(r@) =~= memberships_view(prev).push(ms[i as int]));
                } else {
                    assert(memberships_view(r@) =~= memberships_view(prev));
                }
            }
            i += 1;
        }
        proof {
            assert(self@.memberships.take(self.memberships.len() as int) =~= self@.memberships);
        }
        r
    }

    /// How many group rows the store holds.
    pub fn group_count(&self) -> (n: usize)
        ensures
            n == self@.groups.len(),
    {
        self.groups.len()
    }

    /// How many membership rows the store holds.
    pub fn membership_count(&self) -> (n: usize)
        ensures
            n == self@.memberships.len(),
    {
        self.memberships.len()
    }
}

} // verus!

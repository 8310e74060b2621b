//! The group-creation workflow: duplicate detection, creation of the group
//! row together with its creator membership, and a typed failure for every
//! rejection path. The laws the workflow obeys — uniqueness of the
//! `(name, creator_id)` key, atomic visibility of group and membership, and
//! read-back consistency — are stated and proved here.

use vstd::prelude::*;
use vstd::string::StringExecFns;

use crate::model::{
    CallerIdentity, CreationError, Group, GroupCreationRequest, GroupView, MembershipView,
    RequestView, lemma_matches_of_empty, lemma_matches_of_push, lemma_memberships_of_empty,
    lemma_memberships_of_push, matches_key, matches_of, memberships_of,
};
use crate::storage::{Storage, StorageModel, groups_view, storage_wf};

verus! {

/// The group a successful creation for `req` adds to storage `s`: the next
/// identity, the requested name, the requesting creator.
pub open spec fn created_group(s: StorageModel, req: RequestView) -> GroupView {
    GroupView { id: s.next_id, name: req.name, creator_id: req.creator_id }
}

/// Whether no stored group matches the request's uniqueness key.
pub open spec fn no_duplicate(s: StorageModel, req: RequestView) -> bool {
    matches_of(s.groups, req.name, req.creator_id).len() == 0
}

/// The storage state after a successful creation: the group row and its
/// creator membership appended together, the identity counter advanced.
pub open spec fn after_create(s: StorageModel, req: RequestView) -> StorageModel {
    StorageModel {
        groups: s.groups.push(created_group(s, req)),
        memberships: s.memberships.push(
            MembershipView { group_id: s.next_id, user_id: req.creator_id },
        ),
        next_id: (s.next_id + 1) as u64,
        available: s.available,
    }
}

/// Creates the group described by `request` on behalf of `caller`: checks
/// that a caller identity is present and that storage is reachable, rejects
/// a duplicate `(name, creator_id)` key with the first conflicting group,
/// and otherwise inserts the group row and its creator membership as one
/// visible unit.
pub fn create_group(
    storage: &mut Storage,
    caller: Option<&CallerIdentity>,
    request: &GroupCreationRequest,
) -> (result: Result<Group, CreationError>)
    requires
        old(storage).wf(),
        old(storage)@.next_id < u64::MAX,
    ensures
        final(storage).wf(),
        caller is None ==> (result matches Err(CreationError::NoCallerIdentity)
            && final(storage)@ == old(storage)@),
        caller is Some && !old(storage)@.available ==> ((result matches Err(
            CreationError::ConnectionUnavailable { .. },
        )) && final(storage)@ == old(storage)@),
        caller is Some && old(storage)@.available && !no_duplicate(old(storage)@, request@) ==> (
        result matches Err(CreationError::GroupAlreadyExists { existing })
            && existing@ == matches_of(old(storage)@.groups, request@.name, request@.creator_id)[0]
            && final(storage)@ == old(storage)@),
        caller is Some && old(storage)@.available && no_duplicate(old(storage)@, request@) ==> (
        result matches Ok(created)
            && created@ == created_group(old(storage)@, request@)
            && final(storage)@ == after_create(old(storage)@, request@)),
{
    if caller.is_none() {
        return Err(CreationError::NoCallerIdentity);
    }
    if !storage.is_available() {
        return Err(
            CreationError::ConnectionUnavailable {
                reason: String::from_str("storage engine cannot be reached"),
            },
        );
    }
    let existing = storage.find(&request.name, &request.creator_id);
    if existing.len() > 0 {
        let first = existing[0].clone();
        return Err(CreationError::GroupAlreadyExists { existing: first });
    }
    let ghost g = created_group(old(storage)@, request@);
    storage.insert_group(&request.name, &request.creator_id);
    proof {
        lemma_matches_of_push(old(storage)@.groups, request@.name, request@.creator_id, g);
        assert(matches_of(storage@.groups, request@.name, request@.creator_id) == matches_of(
            old(storage)@.groups,
            request@.name,
            request@.creator_id,
        ).push(g));
    }
    let read_back = storage.find(&request.name, &request.creator_id);
    proof {
        assert(groups_view(read_back@).len() == read_back@.len());
        assert(matches_of(storage@.groups, request@.name, request@.creator_id).len() == 1);
        assert(groups_view(read_back@)[0] == read_back@[0]@);
    }
    if read_back.len() == 0 {
        // Unreachable on this store: it reads its own writes, and the row was
        // just inserted. Verified above to be dead.
        return Err(CreationError::DataNotFound);
    }
    let created = read_back[0].clone();
    proof {
        assert(created@ == g);
    }
    storage.insert_membership(created.id, &request.creator_id);
    proof {
        assert(final(storage)@ =~= after_create(old(storage)@, request@));
    }
    Ok(created)
}

/// Law: at most one creation per key can ever succeed. In any storage state
/// that already holds a group with the request's `(name, creator_id)` key —
/// wherever in storage order it stands — the duplicate check fails, so the
/// workflow rejects the request.
pub proof fn lemma_uniqueness(s: StorageModel, req: RequestView, i: int)
    requires
        0 <= i < s.groups.len(),
        matches_key(s.groups[i], req.name, req.creator_id),
    ensures
        !no_duplicate(s, req),
{
    lemma_matches_of_empty(s.groups, req.name, req.creator_id);
}

/// Law: once a creation for a `(name, creator_id)` key has succeeded, an
/// identical request can never succeed again; the duplicate check finds
/// exactly the created group, which the rejection carries as its payload.
pub proof fn lemma_idempotent_rejection(s: StorageModel, req: RequestView)
    requires
        no_duplicate(s, req),
    ensures
        !no_duplicate(after_create(s, req), req),
        matches_of(after_create(s, req).groups, req.name, req.creator_id) == seq![
            created_group(s, req),
        ],
{
    lemma_matches_of_push(s.groups, req.name, req.creator_id, created_group(s, req));
    assert(matches_of(s.groups, req.name, req.creator_id).push(created_group(s, req)) =~= seq![
        created_group(s, req),
    ]);
}

/// Law: a successful creation for one key leaves the match set of every
/// other key unchanged, so creations for distinct keys never disturb one
/// another's uniqueness.
pub proof fn lemma_other_keys_unchanged(
    s: StorageModel,
    req: RequestView,
    name: Seq<char>,
    creator_id: Seq<char>,
)
    requires
        !(req.name == name && req.creator_id == creator_id),
    ensures
        matches_of(after_create(s, req).groups, name, creator_id) == matches_of(
            s.groups,
            name,
            creator_id,
        ),
{
    lemma_matches_of_push(s.groups, name, creator_id, created_group(s, req));
}

/// Law: after a successful creation, a lookup by the key returns exactly the
/// created group, and the membership lookup for that group returns exactly
/// its creator — never one without the other; and the storage state stays
/// internally consistent.
pub proof fn lemma_atomic_visibility(s: StorageModel, req: RequestView)
    requires
        storage_wf(s),
        no_duplicate(s, req),
        s.next_id < u64::MAX,
    ensures
        storage_wf(after_create(s, req)),
        matches_of(after_create(s, req).groups, req.name, req.creator_id) == seq![
            created_group(s, req),
        ],
        memberships_of(after_create(s, req).memberships, created_group(s, req).id) == seq![
            MembershipView { group_id: s.next_id, user_id: req.creator_id },
        ],
{
    lemma_idempotent_rejection(s, req);
    let m = MembershipView { group_id: s.next_id, user_id: req.creator_id };
    lemma_memberships_of_empty(s.memberships, s.next_id);
    lemma_memberships_of_push(s.memberships, s.next_id, m);
    assert(memberships_of(s.memberships, s.next_id).push(m) =~= seq![m]);
}

/// Whether storage holds a membership row linking group `g` to its creator.
pub open spec fn has_creator_membership(s: StorageModel, g: GroupView) -> bool {
    exists|j: int|
        0 <= j < s.memberships.len() && (#[trigger] s.memberships[j]).group_id == g.id
            && s.memberships[j].user_id == g.creator_id
}

/// Whether every stored group has its creator's membership row.
pub open spec fn creator_membership_complete(s: StorageModel) -> bool {
    forall|i: int|
        0 <= i < s.groups.len() ==> has_creator_membership(s, #[trigger] s.groups[i])
}

/// Law: a group is never observable without its creator's membership. If
/// every stored group has its creator's membership row, that still holds
/// after any successful creation: the group row and the membership row
/// appear together.
pub proof fn lemma_membership_never_missing(s: StorageModel, req: RequestView)
    requires
        creator_membership_complete(s),
    ensures
        creator_membership_complete(after_create(s, req)),
{
    let s1 = after_create(s, req);
    let g = created_group(s, req);
    let m = MembershipView { group_id: s.next_id, user_id: req.creator_id };
    assert forall|i: int| 0 <= i < s1.groups.len() implies has_creator_membership(
        s1,
        #[trigger] s1.groups[i],
    ) by {
        if i < s.groups.len() {
            assert(s1.groups[i] == s.groups[i]);
            let j = choose|j: int|
                0 <= j < s.memberships.len() && (#[trigger] s.memberships[j]).group_id
                    == s.groups[i].id && s.memberships[j].user_id == s.groups[i].creator_id;
            assert(s1.memberships[j] == s.memberships[j]);
        } else {
            assert(s1.groups[i] == g);
            assert(s1.memberships[s.memberships.len() as int] == m);
        }
    }
}

/// Law: between the group insert and the membership insert, the read-back
/// query over the same key returns exactly the just-inserted row, so on a
/// store that reads its own writes the workflow can never end in
/// `DataNotFound`.
pub proof fn lemma_read_back(s: StorageModel, req: RequestView)
    requires
        no_duplicate(s, req),
    ensures
        matches_of(s.groups.push(created_group(s, req)), req.name, req.creator_id) == seq![
            created_group(s, req),
        ],
{
    lemma_matches_of_push(s.groups, req.name, req.creator_id, created_group(s, req));
    assert(matches_of(s.groups, req.name, req.creator_id).push(created_group(s, req)) =~= seq![
        created_group(s, req),
    ]);
}

} // verus!

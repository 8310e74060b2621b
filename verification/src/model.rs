//! Data model of the group-creation workflow: requests, groups, memberships,
//! the error taxonomy, and the spec-level views and queries that the
//! contracts are stated over.

use vstd::prelude::*;

verus! {

/// The authenticated identity of the user issuing a request. It is produced
/// by an authentication collaborator before the workflow runs; the workflow
/// only reads it.
pub struct CallerIdentity {
    pub user_id: String,
}

/// A request to create a group: the desired name and the identifier of the
/// creating user.
pub struct GroupCreationRequest {
    pub name: String,
    pub creator_id: String,
}

/// A group row. The identity is assigned by the storage engine on creation;
/// `(name, creator_id)` is the uniqueness key enforced by the workflow.
#[derive(Debug)]
pub struct Group {
    pub id: u64,
    pub name: String,
    pub creator_id: String,
}

/// A membership row: "user is a member of group". Created once per
/// `(group, creator)` when a group is created.
#[derive(Debug)]
pub struct Membership {
    pub group_id: u64,
    pub user_id: String,
}

/// Spec-level image of a `Group`.
pub struct GroupView {
    pub id: u64,
    pub name: Seq<char>,
    pub creator_id: Seq<char>,
}

/// Spec-level image of a `Membership`.
pub struct MembershipView {
    pub group_id: u64,
    pub user_id: Seq<char>,
}

/// Spec-level image of a `GroupCreationRequest`.
pub struct RequestView {
    pub name: Seq<char>,
    pub creator_id: Seq<char>,
}

impl View for Group {
    type V = GroupView;

    open spec fn view(&self) -> GroupView {
        GroupView { id: self.id, name: self.name@, creator_id: self.creator_id@ }
    }
}

impl View for Membership {
    type V = MembershipView;

    open spec fn view(&self) -> MembershipView {
        MembershipView { group_id: self.group_id, user_id: self.user_id@ }
    }
}

impl View for GroupCreationRequest {
    type V = RequestView;

    open spec fn view(&self) -> RequestView {
        RequestView { name: self.name@, creator_id: self.creator_id@ }
    }
}

impl Clone for Group {
    fn clone(&self) -> (res: Group)
        ensures
            res == *self,
    {
        Group { id: self.id, name: self.name.clone(), creator_id: self.creator_id.clone() }
    }
}

impl Clone for Membership {
    fn clone(&self) -> (res: Membership)
        ensures
            res == *self,
    {
        Membership { group_id: self.group_id, user_id: self.user_id.clone() }
    }
}

/// Which read of the storage engine failed.
#[derive(Clone, Copy, PartialEq, Eq, Structural, Debug)]
pub enum QueryStage {
    DuplicateCheck,
    ReadBack,
}

/// Which write to the storage engine failed.
#[derive(Clone, Copy, PartialEq, Eq, Structural, Debug)]
pub enum InsertStage {
    Group,
    Membership,
}

/// Every way the workflow can fail, one variant per rejection path.
#[allow(inconsistent_fields)]
#[derive(Debug)]
pub enum CreationError {
    /// No authenticated caller identity accompanied the request.
    NoCallerIdentity,
    /// The storage engine cannot be reached.
    ConnectionUnavailable { reason: String },
    /// A read (duplicate check or read-back) failed at the storage layer.
    QueryFailed { stage: QueryStage, reason: String },
    /// A group with the same `(name, creator_id)` already exists; carries the
    /// first conflicting group found.
    GroupAlreadyExists { existing: Group },
    /// A write (group or membership) failed at the storage layer.
    InsertFailed { stage: InsertStage, reason: String },
    /// The read-back after the group insert returned no row.
    DataNotFound,
}

/// Spec-level image of a `CreationError`.
#[allow(inconsistent_fields)]
pub enum ErrorView {
    NoCallerIdentity,
    ConnectionUnavailable { reason: Seq<char> },
    QueryFailed { stage: QueryStage, reason: Seq<char> },
    GroupAlreadyExists { existing: GroupView },
    InsertFailed { stage: InsertStage, reason: Seq<char> },
    DataNotFound,
}

impl View for CreationError {
    type V = ErrorView;

    open spec fn view(&self) -> ErrorView {
        match self {
            CreationError::NoCallerIdentity => ErrorView::NoCallerIdentity,
            CreationError::ConnectionUnavailable { reason } => ErrorView::ConnectionUnavailable {
                reason: reason@,
            },
            CreationError::QueryFailed { stage, reason } => ErrorView::QueryFailed {
                stage: *stage,
                reason: reason@,
            },
            CreationError::GroupAlreadyExists { existing } => ErrorView::GroupAlreadyExists {
                existing: existing@,
            },
            CreationError::InsertFailed { stage, reason } => ErrorView::InsertFailed {
                stage: *stage,
                reason: reason@,
            },
            CreationError::DataNotFound => ErrorView::DataNotFound,
        }
    }
}

/// Whether a group row matches the uniqueness key `(name, creator_id)`.
pub open spec fn matches_key(g: GroupView, name: Seq<char>, creator_id: Seq<char>) -> bool {
    g.name == name && g.creator_id == creator_id
}

/// All groups matching `(name, creator_id)`, in storage order: the result of
/// the existence query.
pub open spec fn matches_of(
    groups: Seq<GroupView>,
    name: Seq<char>,
    creator_id: Seq<char>,
) -> Seq<GroupView>
    decreases groups.len(),
{
    if groups.len() == 0 {
        Seq::empty()
    } else if matches_key(groups[0], name, creator_id) {
        seq![groups[0]] + matches_of(groups.drop_first(), name, creator_id)
    } else {
        matches_of(groups.drop_first(), name, creator_id)
    }
}

/// All membership rows of the group `group_id`, in storage order.
pub open spec fn memberships_of(
    memberships: Seq<MembershipView>,
    group_id: u64,
) -> Seq<MembershipView>
    decreases memberships.len(),
{
    if memberships.len() == 0 {
        Seq::empty()
    } else if memberships[0].group_id == group_id {
        seq![memberships[0]] + memberships_of(memberships.drop_first(), group_id)
    } else {
        memberships_of(memberships.drop_first(), group_id)
    }
}

/// Appending one row to storage extends the match set by that row exactly
/// when the row matches the key.
pub proof fn lemma_matches_of_push(
    groups: Seq<GroupView>,
    name: Seq<char>,
    creator_id: Seq<char>,
    g: GroupView,
)
    ensures
        matches_of(groups.push(g), name, creator_id) == if matches_key(g, name, creator_id) {
            matches_of(groups, name, creator_id).push(g)
        } else {
            matches_of(groups, name, creator_id)
        },
    decreases groups.len(),
{
    reveal_with_fuel(matches_of, 2);
    if groups.len() == 0 {
        assert(groups.push(g).drop_first() =~= groups);
        if matches_key(g, name, creator_id) {
            assert(matches_of(groups.push(g), name, creator_id) =~= matches_of(
                groups,
                name,
                creator_id,
            ).push(g));
        }
    } else {
        assert(groups.push(g).drop_first() =~= groups.drop_first().push(g));
        lemma_matches_of_push(groups.drop_first(), name, creator_id, g);
        if matches_key(g, name, creator_id) {
            assert(matches_of(groups.push(g), name, creator_id) =~= matches_of(
                groups,
                name,
                creator_id,
            ).push(g));
        } else {
            assert(matches_of(groups.push(g), name, creator_id) =~= matches_of(
                groups,
                name,
                creator_id,
            ));
        }
    }
}

/// The match set is empty exactly when no stored row matches the key.
pub proof fn lemma_matches_of_empty(groups: Seq<GroupView>, name: Seq<char>, creator_id: Seq<char>)
    ensures
        matches_of(groups, name, creator_id).len() == 0 <==> (forall|i: int|
            0 <= i < groups.len() ==> !matches_key(#[trigger] groups[i], name, creator_id)),
    decreases groups.len(),
{
    reveal_with_fuel(matches_of, 2);
    if groups.len() > 0 {
        let rest = groups.drop_first();
        lemma_matches_of_empty(rest, name, creator_id);
        if matches_of(groups, name, creator_id).len() == 0 {
            assert(!matches_key(groups[0], name, creator_id));
            assert forall|i: int| 0 <= i < groups.len() implies !matches_key(
                #[trigger] groups[i],
                name,
                creator_id,
            ) by {
                if i > 0 {
                    assert(rest[i - 1] == groups[i]);
                }
            }
        } else {
            if !matches_key(groups[0], name, creator_id) {
                assert(matches_of(rest, name, creator_id).len() != 0);
                let j = choose|j: int|
                    0 <= j < rest.len() && matches_key(rest[j], name, creator_id);
                assert(rest[j] == groups[j + 1]);
                assert(matches_key(groups[j + 1], name, creator_id));
            }
        }
    }
}

/// Appending one membership row extends the per-group member list by that
/// row exactly when it belongs to the group.
pub proof fn lemma_memberships_of_push(
    memberships: Seq<MembershipView>,
    group_id: u64,
    m: MembershipView,
)
    ensures
        memberships_of(memberships.push(m), group_id) == if m.group_id == group_id {
            memberships_of(memberships, group_id).push(m)
        } else {
            memberships_of(memberships, group_id)
        },
    decreases memberships.len(),
{
    reveal_with_fuel(memberships_of, 2);
    if memberships.len() == 0 {
        assert(memberships.push(m).drop_first() =~= memberships);
        if m.group_id == group_id {
            assert(memberships_of(memberships.push(m), group_id) =~= memberships_of(
                memberships,
                group_id,
            ).push(m));
        }
    } else {
        assert(memberships.push(m).drop_first() =~= memberships.drop_first().push(m));
        lemma_memberships_of_push(memberships.drop_first(), group_id, m);
        if m.group_id == group_id {
            assert(memberships_of(memberships.push(m), group_id) =~= memberships_of(
                memberships,
                group_id,
            ).push(m));
        } else {
            assert(memberships_of(memberships.push(m), group_id) =~= memberships_of(
                memberships,
                group_id,
            ));
        }
    }
}

/// The member list of a group is empty exactly when no stored row belongs to
/// the group.
pub proof fn lemma_memberships_of_empty(memberships: Seq<MembershipView>, group_id: u64)
    ensures
        memberships_of(memberships, group_id).len() == 0 <==> (forall|i: int|
            0 <= i < memberships.len() ==> (#[trigger] memberships[i]).group_id != group_id),
    decreases memberships.len(),
{
    reveal_with_fuel(memberships_of, 2);
    if memberships.len() > 0 {
        let rest = memberships.drop_first();
        lemma_memberships_of_empty(rest, group_id);
        if memberships_of(memberships, group_id).len() == 0 {
            assert(memberships[0].group_id != group_id);
            assert forall|i: int| 0 <= i < memberships.len() implies (#[trigger] memberships[i]).group_id
                != group_id by {
                if i > 0 {
                    assert(rest[i - 1] == memberships[i]);
                }
            }
        } else {
            if memberships[0].group_id != group_id {
                assert(memberships_of(rest, group_id).len() != 0);
                let j = choose|j: int| 0 <= j < rest.len() && rest[j].group_id == group_id;
                assert(rest[j] == memberships[j + 1]);
                assert(memberships[j + 1].group_id == group_id);
            }
        }
    }
}

} // verus!

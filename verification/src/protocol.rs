//! The workflow as a step protocol, for running against a real storage
//! engine. The boundary owns the connection and the queries; this module
//! owns every decision. The boundary asks `next_action` what to do, performs
//! it, reports what happened as a `StorageEvent`, and `step` moves the
//! workflow to its next state. Each transition is pinned by `step_spec`.

use vstd::prelude::*;

use crate::model::{
    CallerIdentity, CreationError, ErrorView, Group, GroupCreationRequest, GroupView, InsertStage,
    QueryStage,
};
use crate::storage::groups_view;

verus! {

/// Where the workflow stands: each non-terminal state names the storage
/// operation whose outcome it awaits.
pub enum WorkflowState {
    /// Awaiting a connection to the storage engine.
    Connecting { name: String, creator_id: String },
    /// Awaiting the duplicate-check query over `(name, creator_id)`.
    CheckingDuplicate { name: String, creator_id: String },
    /// Awaiting the group row insert.
    InsertingGroup { name: String, creator_id: String },
    /// Awaiting the read-back query that recovers the stored identity.
    ReadingBack { name: String, creator_id: String },
    /// Awaiting the creator-membership insert.
    InsertingMembership { creator_id: String, group: Group },
    /// Terminal: the workflow succeeded and created this group.
    Done { group: Group },
    /// Terminal: the workflow failed.
    Failed { error: CreationError },
}

/// Spec-level image of a `WorkflowState`.
pub enum StateView {
    Connecting { name: Seq<char>, creator_id: Seq<char> },
    CheckingDuplicate { name: Seq<char>, creator_id: Seq<char> },
    InsertingGroup { name: Seq<char>, creator_id: Seq<char> },
    ReadingBack { name: Seq<char>, creator_id: Seq<char> },
    InsertingMembership { creator_id: Seq<char>, group: GroupView },
    Done { group: GroupView },
    Failed { error: ErrorView },
}

impl View for WorkflowState {
    type V = StateView;

    open spec fn view(&self) -> StateView {
        match self {
            WorkflowState::Connecting { name, creator_id } => StateView::Connecting {
                name: name@,
                creator_id: creator_id@,
            },
            WorkflowState::CheckingDuplicate { name, creator_id } => StateView::CheckingDuplicate {
                name: name@,
                creator_id: creator_id@,
            },
            WorkflowState::InsertingGroup { name, creator_id } => StateView::InsertingGroup {
                name: name@,
                creator_id: creator_id@,
            },
            WorkflowState::ReadingBack { name, creator_id } => StateView::ReadingBack {
                name: name@,
                creator_id: creator_id@,
            },
            WorkflowState::InsertingMembership { creator_id, group } => StateView::InsertingMembership {
                creator_id: creator_id@,
                group: group@,
            },
            WorkflowState::Done { group } => StateView::Done { group: group@ },
            WorkflowState::Failed { error } => StateView::Failed { error: error@ },
        }
    }
}

/// What the boundary reports back after performing a storage action.
pub enum StorageEvent {
    /// The connection attempt succeeded.
    Connected,
    /// The connection attempt failed; carries the engine's message.
    ConnectFailed { reason: String },
    /// A query returned these rows.
    Found { groups: Vec<Group> },
    /// A query failed; carries the engine's message.
    QueryError { reason: String },
    /// An insert succeeded.
    Inserted,
    /// An insert failed; carries the engine's message.
    InsertError { reason: String },
}

/// Spec-level image of a `StorageEvent`.
pub enum EventView {
    Connected,
    ConnectFailed { reason: Seq<char> },
    Found { groups: Seq<GroupView> },
    QueryError { reason: Seq<char> },
    Inserted,
    InsertError { reason: Seq<char> },
}

impl View for StorageEvent {
    type V = EventView;

    open spec fn view(&self) -> EventView {
        match self {
            StorageEvent::Connected => EventView::Connected,
            StorageEvent::ConnectFailed { reason } => EventView::ConnectFailed { reason: reason@ },
            StorageEvent::Found { groups } => EventView::Found { groups: groups_view(groups@) },
            StorageEvent::QueryError { reason } => EventView::QueryError { reason: reason@ },
            StorageEvent::Inserted => EventView::Inserted,
            StorageEvent::InsertError { reason } => EventView::InsertError { reason: reason@ },
        }
    }
}

/// The storage operation the boundary must perform next.
pub enum StorageAction {
    /// Establish a connection or session with the engine.
    Connect,
    /// Run the existence query over `(name, creator_id)`.
    Find { name: String, creator_id: String },
    /// Insert a group row with this name and creator.
    InsertGroup { name: String, creator_id: String },
    /// Insert a membership row linking the user to the group.
    InsertMembership { group_id: u64, user_id: String },
}

/// Spec-level image of a `StorageAction`.
pub enum ActionView {
    Connect,
    Find { name: Seq<char>, creator_id: Seq<char> },
    InsertGroup { name: Seq<char>, creator_id: Seq<char> },
    InsertMembership { group_id: u64, user_id: Seq<char> },
}

impl View for StorageAction {
    type V = ActionView;

    open spec fn view(&self) -> ActionView {
        match self {
            StorageAction::Connect => ActionView::Connect,
            StorageAction::Find { name, creator_id } => ActionView::Find {
                name: name@,
                creator_id: creator_id@,
            },
            StorageAction::InsertGroup { name, creator_id } => ActionView::InsertGroup {
                name: name@,
                creator_id: creator_id@,
            },
            StorageAction::InsertMembership { group_id, user_id } => ActionView::InsertMembership {
                group_id: *group_id,
                user_id: user_id@,
            },
        }
    }
}

/// Which events can answer which state: exactly the outcomes of the
/// operation the state awaits.
pub open spec fn event_fits(st: StateView, ev: EventView) -> bool {
    match st {
        StateView::Connecting { .. } => ev is Connected || ev is ConnectFailed,
        StateView::CheckingDuplicate { .. } => ev is Found || ev is QueryError,
        StateView::InsertingGroup { .. } => ev is Inserted || ev is InsertError,
        StateView::ReadingBack { .. } => ev is Found || ev is QueryError,
        StateView::InsertingMembership { .. } => ev is Inserted || ev is InsertError,
        StateView::Done { .. } => false,
        StateView::Failed { .. } => false,
    }
}

/// The transition relation: where each event moves each state. An event that
/// does not answer the state leaves it unchanged.
pub open spec fn step_spec(st: StateView, ev: EventView) -> StateView {
    match (st, ev) {
        (StateView::Connecting { name, creator_id }, EventView::Connected) => StateView::CheckingDuplicate {
            name,
            creator_id,
        },
        (StateView::Connecting { .. }, EventView::ConnectFailed { reason }) => StateView::Failed {
            error: ErrorView::ConnectionUnavailable { reason },
        },
        (StateView::CheckingDuplicate { name, creator_id }, EventView::Found { groups }) => if groups.len()
            == 0 {
            StateView::InsertingGroup { name, creator_id }
        } else {
            StateView::Failed { error: ErrorView::GroupAlreadyExists { existing: groups[0] } }
        },
        (StateView::CheckingDuplicate { .. }, EventView::QueryError { reason }) => StateView::Failed {
            error: ErrorView::QueryFailed { stage: QueryStage::DuplicateCheck, reason },
        },
        (StateView::InsertingGroup { name, creator_id }, EventView::Inserted) => StateView::ReadingBack {
            name,
            creator_id,
        },
        (StateView::InsertingGroup { .. }, EventView::InsertError { reason }) => StateView::Failed {
            error: ErrorView::InsertFailed { stage: InsertStage::Group, reason },
        },
        (StateView::ReadingBack { creator_id, .. }, EventView::Found { groups }) => if groups.len() > 0 {
            StateView::InsertingMembership { creator_id, group: groups[0] }
        } else {
            StateView::Failed { error: ErrorView::DataNotFound }
        },
        (StateView::ReadingBack { .. }, EventView::QueryError { reason }) => StateView::Failed {
            error: ErrorView::QueryFailed { stage: QueryStage::ReadBack, reason },
        },
        (StateView::InsertingMembership { group, .. }, EventView::Inserted) => StateView::Done { group },
        (StateView::InsertingMembership { .. }, EventView::InsertError { reason }) => StateView::Failed {
            error: ErrorView::InsertFailed { stage: InsertStage::Membership, reason },
        },
        (other, _) => other,
    }
}

/// Begins the workflow: a missing caller identity is rejected at once;
/// otherwise the workflow awaits a storage connection.
pub fn start(caller: Option<&CallerIdentity>, request: &GroupCreationRequest) -> (st: WorkflowState)
    ensures
        caller is None ==> st@ == (StateView::Failed { error: ErrorView::NoCallerIdentity }),
        caller is Some ==> st@ == (StateView::Connecting {
            name: request@.name,
            creator_id: request@.creator_id,
        }),
{
    if caller.is_none() {
        WorkflowState::Failed { error: CreationError::NoCallerIdentity }
    } else {
        WorkflowState::Connecting {
            name: request.name.clone(),
            creator_id: request.creator_id.clone(),
        }
    }
}

/// Moves the workflow one step on the reported outcome of the awaited
/// storage operation.
pub fn step(st: WorkflowState, ev: StorageEvent) -> (next: WorkflowState)
    requires
        event_fits(st@, ev@),
    ensures
        next@ == step_spec(st@, ev@),
{
    match (st, ev) {
        (WorkflowState::Connecting { name, creator_id }, StorageEvent::Connected) => {
            WorkflowState::CheckingDuplicate { name, creator_id }
        },
        (WorkflowState::Connecting { .. }, StorageEvent::ConnectFailed { reason }) => {
            WorkflowState::Failed { error: CreationError::ConnectionUnavailable { reason } }
        },
        (WorkflowState::CheckingDuplicate { name, creator_id }, StorageEvent::Found { groups }) => {
            if groups.len() == 0 {
                WorkflowState::InsertingGroup { name, creator_id }
            } else {
                let existing = groups[0].clone();
                WorkflowState::Failed { error: CreationError::GroupAlreadyExists { existing } }
            }
        },
        (WorkflowState::CheckingDuplicate { .. }, StorageEvent::QueryError { reason }) => {
            WorkflowState::Failed {
                error: CreationError::QueryFailed { stage: QueryStage::DuplicateCheck, reason },
            }
        },
        (WorkflowState::InsertingGroup { name, creator_id }, StorageEvent::Inserted) => {
            WorkflowState::ReadingBack { name, creator_id }
        },
        (WorkflowState::InsertingGroup { .. }, StorageEvent::InsertError { reason }) => {
            WorkflowState::Failed {
                error: CreationError::InsertFailed { stage: InsertStage::Group, reason },
            }
        },
        (WorkflowState::ReadingBack { creator_id, .. }, StorageEvent::Found { groups }) => {
            if groups.len() > 0 {
                let group = groups[0].clone();
                WorkflowState::InsertingMembership { creator_id, group }
            } else {
                WorkflowState::Failed { error: CreationError::DataNotFound }
            }
        },
        (WorkflowState::ReadingBack { .. }, StorageEvent::QueryError { reason }) => {
            WorkflowState::Failed {
                error: CreationError::QueryFailed { stage: QueryStage::ReadBack, reason },
            }
        },
        (WorkflowState::InsertingMembership { group, .. }, StorageEvent::Inserted) => {
            WorkflowState::Done { group }
        },
        (WorkflowState::InsertingMembership { .. }, StorageEvent::InsertError { reason }) => {
            WorkflowState::Failed {
                error: CreationError::InsertFailed { stage: InsertStage::Membership, reason },
            }
        },
        (other, _) => other,
    }
}

/// The storage operation the boundary must perform in this state; `None`
/// once the workflow has ended.
pub fn next_action(st: &WorkflowState) -> (a: Option<StorageAction>)
    ensures
        st@ matches StateView::Connecting { .. } ==> (a matches Some(act) && act@
            == ActionView::Connect),
        st@ matches StateView::CheckingDuplicate { name, creator_id } ==> (a matches Some(act)
            && act@ == (ActionView::Find { name, creator_id })),
        st@ matches StateView::InsertingGroup { name, creator_id } ==> (a matches Some(act) && act@
            == (ActionView::InsertGroup { name, creator_id })),
        st@ matches StateView::ReadingBack { name, creator_id } ==> (a matches Some(act) && act@
            == (ActionView::Find { name, creator_id })),
        st@ matches StateView::InsertingMembership { creator_id, group } ==> (a matches Some(act)
            && act@ == (ActionView::InsertMembership { group_id: group.id, user_id: creator_id })),
        st@ is Done || st@ is Failed ==> a is None,
{
    match st {
        WorkflowState::Connecting { .. } => Some(StorageAction::Connect),
        WorkflowState::CheckingDuplicate { name, creator_id } => Some(
            StorageAction::Find { name: name.clone(), creator_id: creator_id.clone() },
        ),
        WorkflowState::InsertingGroup { name, creator_id } => Some(
            StorageAction::InsertGroup { name: name.clone(), creator_id: creator_id.clone() },
        ),
        WorkflowState::ReadingBack { name, creator_id } => Some(
            StorageAction::Find { name: name.clone(), creator_id: creator_id.clone() },
        ),
        WorkflowState::InsertingMembership { creator_id, group } => Some(
            StorageAction::InsertMembership { group_id: group.id, user_id: creator_id.clone() },
        ),
        WorkflowState::Done { .. } => None,
        WorkflowState::Failed { .. } => None,
    }
}

/// Whether the workflow has ended, in success or failure.
pub fn is_terminal(st: &WorkflowState) -> (b: bool)
    ensures
        b == (st@ is Done || st@ is Failed),
{
    match st {
        WorkflowState::Done { .. } => true,
        WorkflowState::Failed { .. } => true,
        _ => false,
    }
}

/// Extracts the workflow's result from a terminal state.
pub fn finish(st: WorkflowState) -> (r: Result<Group, CreationError>)
    requires
        st@ is Done || st@ is Failed,
    ensures
        st@ matches StateView::Done { group } ==> (r matches Ok(created) && created@ == group),
        st@ matches StateView::Failed { error } ==> (r matches Err(e) && e@ == error),
{
    match st {
        WorkflowState::Done { group } => Ok(group),
        WorkflowState::Failed { error } => Err(error),
        _ => {
            proof {
                assert(false);
            }
            Err(CreationError::DataNotFound)
        },
    }
}

} // verus!

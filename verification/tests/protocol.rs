use group_creation::model::{CallerIdentity, CreationError, GroupCreationRequest, InsertStage, QueryStage};
use group_creation::protocol::{
    finish, is_terminal, next_action, start, step, StorageAction, StorageEvent,
};
use group_creation::storage::Storage;

fn request(name: &str, creator: &str) -> GroupCreationRequest {
    GroupCreationRequest { name: name.to_string(), creator_id: creator.to_string() }
}

fn caller(id: &str) -> CallerIdentity {
    CallerIdentity { user_id: id.to_string() }
}

/// Performs one protocol action against an in-memory store and reports what
/// happened, the way an unverified boundary would against a real engine.
fn perform(storage: &mut Storage, action: StorageAction) -> StorageEvent {
    match action {
        StorageAction::Connect => {
            if storage.is_available() {
                StorageEvent::Connected
            } else {
                StorageEvent::ConnectFailed { reason: "no connection".to_string() }
            }
        }
        StorageAction::Find { name, creator_id } => {
            StorageEvent::Found { groups: storage.find(&name, &creator_id) }
        }
        StorageAction::InsertGroup { name, creator_id } => {
            storage.insert_group(&name, &creator_id);
            StorageEvent::Inserted
        }
        StorageAction::InsertMembership { group_id, user_id } => {
            storage.insert_membership(group_id, &user_id);
            StorageEvent::Inserted
        }
    }
}

/// Runs the protocol to completion against an in-memory store.
fn drive(storage: &mut Storage, c: Option<&CallerIdentity>, req: &GroupCreationRequest) -> Result<group_creation::model::Group, CreationError> {
    let mut state = start(c, req);
    while !is_terminal(&state) {
        let action = next_action(&state).expect("a non-terminal state must name an action");
        let event = perform(storage, action);
        state = step(state, event);
    }
    finish(state)
}

#[test]
fn driven_protocol_creates_group_and_membership() {
    let mut storage = Storage::new();
    let c = caller("u1");
    let req = request("engineering", "u1");

    let group = drive(&mut storage, Some(&c), &req).expect("the run must succeed");

    assert_eq!(group.name, "engineering");
    assert_eq!(group.creator_id, "u1");
    assert_eq!(storage.group_count(), 1);
    assert_eq!(storage.membership_count(), 1);
    let members = storage.members_of(group.id);
    assert_eq!(members.len(), 1);
    assert_eq!(members[0].user_id, "u1");
}

#[test]
fn driven_protocol_rejects_a_repeat() {
    let mut storage = Storage::new();
    let c = caller("u1");
    let req = request("engineering", "u1");

    let group = drive(&mut storage, Some(&c), &req).expect("the first run must succeed");
    match drive(&mut storage, Some(&c), &req) {
        Err(CreationError::GroupAlreadyExists { existing }) => assert_eq!(existing.id, group.id),
        _ => panic!("the second run must be rejected as a duplicate"),
    }
    assert_eq!(storage.group_count(), 1);
}

#[test]
fn driven_protocol_reports_an_unreachable_engine() {
    let mut storage = Storage::new();
    storage.set_available(false);
    let c = caller("u1");
    let req = request("engineering", "u1");

    let result = drive(&mut storage, Some(&c), &req);

    assert!(matches!(result, Err(CreationError::ConnectionUnavailable { .. })));
    assert_eq!(storage.group_count(), 0);
    assert_eq!(storage.membership_count(), 0);
}

#[test]
fn start_without_caller_fails_at_once() {
    let req = request("engineering", "u1");
    let state = start(None, &req);
    assert!(is_terminal(&state));
    assert!(next_action(&state).is_none());
    assert!(matches!(finish(state), Err(CreationError::NoCallerIdentity)));
}

#[test]
fn duplicate_found_mid_protocol_carries_that_group() {
    let c = caller("u1");
    let req = request("engineering", "u1");
    let state = start(Some(&c), &req);
    let state = step(state, StorageEvent::Connected);
    let conflicting = group_creation::model::Group {
        id: 7,
        name: "engineering".to_string(),
        creator_id: "u1".to_string(),
    };
    let state = step(state, StorageEvent::Found { groups: vec![conflicting] });
    assert!(is_terminal(&state));
    match finish(state) {
        Err(CreationError::GroupAlreadyExists { existing }) => assert_eq!(existing.id, 7),
        _ => panic!("a non-empty duplicate check must reject"),
    }
}

#[test]
fn query_error_at_duplicate_check_fails_that_stage() {
    let c = caller("u1");
    let state = start(Some(&c), &request("engineering", "u1"));
    let state = step(state, StorageEvent::Connected);
    let state = step(state, StorageEvent::QueryError { reason: "timeout".to_string() });
    match finish(state) {
        Err(CreationError::QueryFailed { stage, reason }) => {
            assert_eq!(stage, QueryStage::DuplicateCheck);
            assert_eq!(reason, "timeout");
        }
        _ => panic!("a failing duplicate check must report a query failure"),
    }
}

#[test]
fn insert_error_on_the_group_row_fails_that_stage() {
    let c = caller("u1");
    let state = start(Some(&c), &request("engineering", "u1"));
    let state = step(state, StorageEvent::Connected);
    let state = step(state, StorageEvent::Found { groups: vec![] });
    let state = step(state, StorageEvent::InsertError { reason: "constraint".to_string() });
    match finish(state) {
        Err(CreationError::InsertFailed { stage, reason }) => {
            assert_eq!(stage, InsertStage::Group);
            assert_eq!(reason, "constraint");
        }
        _ => panic!("a failing group insert must report an insert failure"),
    }
}

#[test]
fn empty_read_back_reports_data_not_found() {
    let c = caller("u1");
    let state = start(Some(&c), &request("engineering", "u1"));
    let state = step(state, StorageEvent::Connected);
    let state = step(state, StorageEvent::Found { groups: vec![] });
    let state = step(state, StorageEvent::Inserted);
    let state = step(state, StorageEvent::Found { groups: vec![] });
    assert!(matches!(finish(state), Err(CreationError::DataNotFound)));
}

#[test]
fn query_error_at_read_back_fails_that_stage() {
    let c = caller("u1");
    let state = start(Some(&c), &request("engineering", "u1"));
    let state = step(state, StorageEvent::Connected);
    let state = step(state, StorageEvent::Found { groups: vec![] });
    let state = step(state, StorageEvent::Inserted);
    let state = step(state, StorageEvent::QueryError { reason: "gone".to_string() });
    match finish(state) {
        Err(CreationError::QueryFailed { stage, .. }) => assert_eq!(stage, QueryStage::ReadBack),
        _ => panic!("a failing read-back must report a query failure"),
    }
}

#[test]
fn insert_error_on_the_membership_row_fails_that_stage() {
    let c = caller("u1");
    let state = start(Some(&c), &request("engineering", "u1"));
    let state = step(state, StorageEvent::Connected);
    let state = step(state, StorageEvent::Found { groups: vec![] });
    let state = step(state, StorageEvent::Inserted);
    let row = group_creation::model::Group {
        id: 1,
        name: "engineering".to_string(),
        creator_id: "u1".to_string(),
    };
    let state = step(state, StorageEvent::Found { groups: vec![row] });
    let state = step(state, StorageEvent::InsertError { reason: "constraint".to_string() });
    match finish(state) {
        Err(CreationError::InsertFailed { stage, .. }) => assert_eq!(stage, InsertStage::Membership),
        _ => panic!("a failing membership insert must report an insert failure"),
    }
}

#[test]
fn connection_failure_at_the_first_step_is_terminal() {
    let c = caller("u1");
    let state = start(Some(&c), &request("engineering", "u1"));
    let state = step(state, StorageEvent::ConnectFailed { reason: "refused".to_string() });
    assert!(is_terminal(&state));
    match finish(state) {
        Err(CreationError::ConnectionUnavailable { reason }) => assert_eq!(reason, "refused"),
        _ => panic!("a failed connection must be reported as unavailable"),
    }
}

#[test]
fn actions_follow_the_linear_order_of_the_workflow() {
    let c = caller("u1");
    let req = request("engineering", "u1");
    let state = start(Some(&c), &req);
    assert!(matches!(next_action(&state), Some(StorageAction::Connect)));

    let state = step(state, StorageEvent::Connected);
    match next_action(&state) {
        Some(StorageAction::Find { name, creator_id }) => {
            assert_eq!(name, "engineering");
            assert_eq!(creator_id, "u1");
        }
        _ => panic!("after connecting, the duplicate check comes next"),
    }

    let state = step(state, StorageEvent::Found { groups: vec![] });
    assert!(matches!(next_action(&state), Some(StorageAction::InsertGroup { .. })));

    let state = step(state, StorageEvent::Inserted);
    assert!(matches!(next_action(&state), Some(StorageAction::Find { .. })));

    let row = group_creation::model::Group {
        id: 1,
        name: "engineering".to_string(),
        creator_id: "u1".to_string(),
    };
    let state = step(state, StorageEvent::Found { groups: vec![row] });
    match next_action(&state) {
        Some(StorageAction::InsertMembership { group_id, user_id }) => {
            assert_eq!(group_id, 1);
            assert_eq!(user_id, "u1");
        }
        _ => panic!("after the read-back, the membership insert comes next"),
    }

    let state = step(state, StorageEvent::Inserted);
    assert!(next_action(&state).is_none());
    let group = finish(state).expect("the run must succeed");
    assert_eq!(group.id, 1);
}

#[test]
fn driven_protocol_agrees_with_the_direct_workflow() {
    let mut s1 = Storage::new();
    let mut s2 = Storage::new();
    let c = caller("u1");
    let req = request("engineering", "u1");

    let by_protocol = drive(&mut s1, Some(&c), &req).expect("the run must succeed");
    let direct = group_creation::workflow::create_group(&mut s2, Some(&c), &req)
        .expect("the direct workflow must succeed");

    assert_eq!(by_protocol.id, direct.id);
    assert_eq!(by_protocol.name, direct.name);
    assert_eq!(by_protocol.creator_id, direct.creator_id);
    assert_eq!(s1.group_count(), s2.group_count());
    assert_eq!(s1.membership_count(), s2.membership_count());
}

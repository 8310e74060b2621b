use group_creation::model::{CallerIdentity, CreationError, GroupCreationRequest};
use group_creation::storage::Storage;
use group_creation::workflow::create_group;

fn request(name: &str, creator: &str) -> GroupCreationRequest {
    GroupCreationRequest { name: name.to_string(), creator_id: creator.to_string() }
}

fn caller(id: &str) -> CallerIdentity {
    CallerIdentity { user_id: id.to_string() }
}

#[test]
fn creates_group_and_membership_on_empty_storage() {
    let mut storage = Storage::new();
    let req = request("engineering", "u1");
    let c = caller("u1");

    let group = create_group(&mut storage, Some(&c), &req).expect("creation must succeed");

    assert_eq!(group.name, "engineering");
    assert_eq!(group.creator_id, "u1");
    assert_eq!(storage.group_count(), 1);
    assert_eq!(storage.membership_count(), 1);

    let found = storage.find(&"engineering".to_string(), &"u1".to_string());
    assert_eq!(found.len(), 1);
    assert_eq!(found[0].id, group.id);
    assert_eq!(found[0].name, "engineering");
    assert_eq!(found[0].creator_id, "u1");

    let members = storage.members_of(group.id);
    assert_eq!(members.len(), 1);
    assert_eq!(members[0].group_id, group.id);
    assert_eq!(members[0].user_id, "u1");
}

#[test]
fn repeated_request_is_rejected_with_the_first_created_group() {
    let mut storage = Storage::new();
    let req = request("engineering", "u1");
    let c = caller("u1");

    let group = create_group(&mut storage, Some(&c), &req).expect("first creation must succeed");
    let second = create_group(&mut storage, Some(&c), &req);

    match second {
        Err(CreationError::GroupAlreadyExists { existing }) => {
            assert_eq!(existing.id, group.id);
            assert_eq!(existing.name, group.name);
            assert_eq!(existing.creator_id, group.creator_id);
        }
        _ => panic!("second identical request must be rejected as a duplicate"),
    }
    assert_eq!(storage.group_count(), 1);
    assert_eq!(storage.membership_count(), 1);
}

#[test]
fn repeating_the_rejection_stays_rejected() {
    let mut storage = Storage::new();
    let req = request("engineering", "u1");
    let c = caller("u1");

    let group = create_group(&mut storage, Some(&c), &req).expect("first creation must succeed");
    for _ in 0..3 {
        match create_group(&mut storage, Some(&c), &req) {
            Err(CreationError::GroupAlreadyExists { existing }) => {
                assert_eq!(existing.id, group.id);
            }
            _ => panic!("every repetition must be rejected as a duplicate"),
        }
    }
    assert_eq!(storage.group_count(), 1);
}

#[test]
fn unavailable_storage_writes_nothing() {
    let mut storage = Storage::new();
    storage.set_available(false);
    let req = request("engineering", "u1");
    let c = caller("u1");

    let result = create_group(&mut storage, Some(&c), &req);

    assert!(matches!(result, Err(CreationError::ConnectionUnavailable { .. })));
    assert_eq!(storage.group_count(), 0);
    assert_eq!(storage.membership_count(), 0);
}

#[test]
fn missing_caller_identity_is_rejected_before_any_storage_access() {
    let mut storage = Storage::new();
    storage.set_available(false);
    let req = request("engineering", "u1");

    let result = create_group(&mut storage, None, &req);

    assert!(matches!(result, Err(CreationError::NoCallerIdentity)));
    assert_eq!(storage.group_count(), 0);
    assert_eq!(storage.membership_count(), 0);
}

#[test]
fn same_name_under_different_creators_both_succeed() {
    let mut storage = Storage::new();
    let c1 = caller("u1");
    let c2 = caller("u2");

    let g1 = create_group(&mut storage, Some(&c1), &request("engineering", "u1"))
        .expect("first creator must succeed");
    let g2 = create_group(&mut storage, Some(&c2), &request("engineering", "u2"))
        .expect("second creator must succeed");

    assert_ne!(g1.id, g2.id);
    assert_eq!(storage.group_count(), 2);
    assert_eq!(storage.membership_count(), 2);
    assert_eq!(storage.members_of(g1.id).len(), 1);
    assert_eq!(storage.members_of(g2.id).len(), 1);
}

#[test]
fn different_names_under_one_creator_both_succeed() {
    let mut storage = Storage::new();
    let c = caller("u1");

    let g1 = create_group(&mut storage, Some(&c), &request("engineering", "u1"))
        .expect("first name must succeed");
    let g2 = create_group(&mut storage, Some(&c), &request("design", "u1"))
        .expect("second name must succeed");

    assert_ne!(g1.id, g2.id);
    assert_eq!(storage.group_count(), 2);
}

#[test]
fn duplicate_check_carries_the_first_match_among_many_rows() {
    let mut storage = Storage::new();
    let c = caller("u1");

    let g1 = create_group(&mut storage, Some(&c), &request("engineering", "u1"))
        .expect("creation must succeed");
    create_group(&mut storage, Some(&c), &request("design", "u1")).expect("creation must succeed");
    create_group(&mut storage, Some(&caller("u2")), &request("engineering", "u2"))
        .expect("creation must succeed");

    match create_group(&mut storage, Some(&c), &request("engineering", "u1")) {
        Err(CreationError::GroupAlreadyExists { existing }) => {
            assert_eq!(existing.id, g1.id);
        }
        _ => panic!("the duplicate must be rejected"),
    }
}

#[test]
fn find_on_empty_storage_returns_nothing() {
    let storage = Storage::new();
    let found = storage.find(&"engineering".to_string(), &"u1".to_string());
    assert_eq!(found.len(), 0);
}

//! Round trips through the store: insert, lookup, update, delete, and the
//! invariants the persisted records keep.

use tagent::models::{AclAction, AclDecision, NewAclJson};
use tagent::store::{AclStore, StoreError};

#[test]
fn insert_then_get_returns_inserted_fields() {
    let mut store = AclStore::new();
    let id = store
        .save_acl(
            "s1",
            &AclAction::Execute,
            "tmp/data.bin",
            "self",
            &AclDecision::Allow,
            "creator",
        )
        .unwrap();
    let rec = store.retrieve_acl_by_id(id).unwrap();
    assert_eq!(rec.id, id);
    assert_eq!(rec.subject.as_str(), "s1");
    assert_eq!(rec.action.as_str(), "Execute");
    assert_eq!(rec.path.as_str(), "/tmp/data.bin");
    assert_eq!(rec.user.as_str(), "self");
    assert_eq!(rec.decision.as_str(), "Allow");
    assert_eq!(rec.create_by.as_str(), "creator");
}

#[test]
fn persisted_paths_always_start_with_slash() {
    let mut store = AclStore::new();
    store
        .save_acl("s", &AclAction::Read, "no/slash", "self", &AclDecision::Allow, "c")
        .unwrap();
    store
        .save_acl("s", &AclAction::Read, "/already", "self", &AclDecision::Deny, "c")
        .unwrap();
    for rec in store.retrieve_all_acls() {
        assert!(rec.path.starts_with('/'));
    }
}

#[test]
fn stored_enumerations_are_canonical() {
    let mut store = AclStore::new();
    store
        .save_acl("s", &AclAction::Read, "/a", "self", &AclDecision::Allow, "c")
        .unwrap();
    store
        .save_acl("s", &AclAction::Execute, "/b", "self", &AclDecision::Deny, "c")
        .unwrap();
    store
        .save_acl("s", &AclAction::Write, "/c", "self", &AclDecision::Allow, "c")
        .unwrap();
    let recs = store.retrieve_all_acls();
    assert_eq!(recs[0].action.as_str(), "Read");
    assert_eq!(recs[1].action.as_str(), "Execute");
    assert_eq!(recs[2].action.as_str(), "Write");
    for rec in &recs {
        assert!(rec.action == "Read" || rec.action == "Execute" || rec.action == "Write");
        assert!(rec.decision == "Allow" || rec.decision == "Deny");
    }
}

#[test]
fn ids_are_assigned_in_order() {
    let mut store = AclStore::new();
    let a = store
        .save_acl("s", &AclAction::Read, "/a", "self", &AclDecision::Allow, "c")
        .unwrap();
    let b = store
        .save_acl("s", &AclAction::Read, "/b", "self", &AclDecision::Allow, "c")
        .unwrap();
    assert_eq!(a, 1);
    assert_eq!(b, 2);
}

#[test]
fn update_then_get_reflects_new_fields() {
    let mut store = AclStore::new();
    let id = store
        .save_acl(
            "s1",
            &AclAction::Write,
            "/old/path",
            "self",
            &AclDecision::Allow,
            "creator",
        )
        .unwrap();
    let before = store.retrieve_acl_by_id(id).unwrap();
    let new_fields = NewAclJson {
        subject: String::from("s2"),
        action: AclAction::Read,
        decision: AclDecision::Deny,
        path: String::from("new/path"),
        user: String::from("user*"),
    };
    let count = store.update_acl_in_db_by_id(id, &new_fields, "editor");
    assert_eq!(count, 1);
    let after = store.retrieve_acl_by_id(id).unwrap();
    assert_eq!(after.id, id);
    assert_eq!(after.subject.as_str(), "s2");
    assert_eq!(after.action.as_str(), "Read");
    assert_eq!(after.decision.as_str(), "Deny");
    assert_eq!(after.path.as_str(), "/new/path");
    assert_eq!(after.user.as_str(), "user*");
    assert_eq!(after.create_by.as_str(), "editor");
    assert_eq!(after.create_time, before.create_time);
}

#[test]
fn update_of_absent_id_rewrites_nothing() {
    let mut store = AclStore::new();
    let new_fields = NewAclJson {
        subject: String::from("s"),
        action: AclAction::Read,
        decision: AclDecision::Allow,
        path: String::from("/p"),
        user: String::from("self"),
    };
    assert_eq!(store.update_acl_in_db_by_id(7, &new_fields, "editor"), 0);
}

#[test]
fn insert_delete_get_yields_not_found() {
    let mut store = AclStore::new();
    let id = store
        .save_acl("s1", &AclAction::Read, "/a", "self", &AclDecision::Allow, "c")
        .unwrap();
    assert_eq!(store.delete_acl_from_db_by_id(id), 1);
    assert!(matches!(store.retrieve_acl_by_id(id), Err(StoreError::NotFound)));
}

#[test]
fn delete_of_absent_id_removes_nothing() {
    let mut store = AclStore::new();
    store
        .save_acl("s1", &AclAction::Read, "/a", "self", &AclDecision::Allow, "c")
        .unwrap();
    assert_eq!(store.delete_acl_from_db_by_id(99), 0);
    assert_eq!(store.retrieve_all_acls().len(), 1);
}

#[test]
fn listings_filter_by_subject_and_user() {
    let mut store = AclStore::new();
    store
        .save_acl("s1", &AclAction::Read, "/a", "self", &AclDecision::Allow, "c")
        .unwrap();
    store
        .save_acl("s1", &AclAction::Read, "/b", "other", &AclDecision::Allow, "c")
        .unwrap();
    store
        .save_acl("s2", &AclAction::Read, "/c", "self", &AclDecision::Allow, "c")
        .unwrap();
    assert_eq!(store.retrieve_acls_for_subject("s1").len(), 2);
    assert_eq!(store.retrieve_acls_for_subject("s2").len(), 1);
    assert_eq!(store.retrieve_acls_for_subject("s3").len(), 0);
    let su = store.retrieve_acls_for_subject_user("s1", "self");
    assert_eq!(su.len(), 1);
    assert_eq!(su[0].path.as_str(), "/a");
}

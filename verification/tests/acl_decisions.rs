//! Decision-engine behavior over a populated store: exact matches, the
//! action hierarchy, subtree wildcards, deny precedence and default deny.

use tagent::authz::is_authz_db;
use tagent::models::{AclAction, AclDecision};
use tagent::store::AclStore;

fn make_acls(store: &mut AclStore, base: &str) {
    store
        .save_acl(
            "tenants@admin",
            &AclAction::Write,
            &format!("{}/*.txt", base),
            "self",
            &AclDecision::Allow,
            "tester_admin",
        )
        .unwrap();
    store
        .save_acl(
            "tenants@admin",
            &AclAction::Write,
            &format!("{}/exam*", base),
            "self",
            &AclDecision::Deny,
            "tester_admin",
        )
        .unwrap();
    store
        .save_acl(
            "tenants@admin",
            &AclAction::Write,
            &format!("{}/subdir2/bam.zip", base),
            "self",
            &AclDecision::Allow,
            "tester_admin",
        )
        .unwrap();
}

#[test]
fn status_should_be_ready() {
    let r = tagent::handlers::ready("0.1.0");
    assert_eq!(r.status.as_str(), "success");
    assert_eq!(r.message.as_str(), "tagent ready.");
    assert_eq!(r.result.as_str(), "None");
    assert_eq!(r.version.as_str(), "0.1.0");
}

#[test]
fn acls_list_empty() {
    let store = AclStore::new();
    assert_eq!(store.retrieve_all_acls().len(), 0);
}

#[test]
fn acls_list_all() {
    let mut store = AclStore::new();
    make_acls(&mut store, "/tmp/T");
    assert_eq!(store.retrieve_all_acls().len(), 3);
}

#[test]
fn acls_allow_exact() {
    let mut store = AclStore::new();
    make_acls(&mut store, "/tmp/T");
    let ans = is_authz_db(
        &store,
        "tenants@admin",
        "self",
        "/tmp/T/subdir2/bam.zip",
        &AclAction::Write,
    )
    .unwrap();
    assert_eq!(ans.allowed, true);
    assert_ne!(ans.acl_id, None);
}

#[test]
fn acls_allow_exact_action_impl() {
    let mut store = AclStore::new();
    make_acls(&mut store, "/tmp/T");
    let ans = is_authz_db(
        &store,
        "tenants@admin",
        "self",
        "/tmp/T/subdir2/bam.zip",
        &AclAction::Read,
    )
    .unwrap();
    assert_eq!(ans.allowed, true);
    assert_ne!(ans.acl_id, None);
}

#[test]
fn acls_default_decision_deny() {
    let mut store = AclStore::new();
    make_acls(&mut store, "/tmp/T");
    let ans = is_authz_db(
        &store,
        "tenants@admin",
        "self",
        "/tmp/T/levitation.mp3",
        &AclAction::Write,
    )
    .unwrap();
    assert_eq!(ans.allowed, false);
    assert_eq!(ans.acl_id, None);
}

#[test]
fn acls_allow_glob() {
    let mut store = AclStore::new();
    make_acls(&mut store, "/tmp/T");
    let ans = is_authz_db(&store, "tenants@admin", "self", "/tmp/T/foo.txt", &AclAction::Read)
        .unwrap();
    assert_eq!(ans.allowed, true);
    assert_ne!(ans.acl_id, None);
}

#[test]
fn acls_allow_glob_subdirs() {
    let mut store = AclStore::new();
    make_acls(&mut store, "/tmp/T");
    let ans = is_authz_db(
        &store,
        "tenants@admin",
        "self",
        "/tmp/T/subdir1/sub2/sub3/foo.txt",
        &AclAction::Read,
    )
    .unwrap();
    assert_eq!(ans.allowed, true);
    assert_ne!(ans.acl_id, None);
}

#[test]
fn acls_deny_glob() {
    let mut store = AclStore::new();
    make_acls(&mut store, "/tmp/T");
    let ans = is_authz_db(&store, "tenants@admin", "self", "/tmp/T/exam.123", &AclAction::Write)
        .unwrap();
    assert_eq!(ans.allowed, false);
    assert_ne!(ans.acl_id, None);
}

#[test]
fn acls_deny_glob_subdirs() {
    let mut store = AclStore::new();
    make_acls(&mut store, "/tmp/T");
    let ans = is_authz_db(
        &store,
        "tenants@admin",
        "self",
        "/tmp/T/dir1/dir2/exam.123",
        &AclAction::Write,
    )
    .unwrap();
    assert_eq!(ans.allowed, false);
    assert_eq!(ans.acl_id, None);
}

#[test]
fn acls_deny_precedence_over_allow() {
    let mut store = AclStore::new();
    make_acls(&mut store, "/tmp/T");
    let ans = is_authz_db(&store, "tenants@admin", "self", "/tmp/T/exam.txt", &AclAction::Write)
        .unwrap();
    assert_eq!(ans.allowed, false);
    assert_ne!(ans.acl_id, None);
}

#[test]
fn scenario_no_match_without_exact_rule() {
    let mut store = AclStore::new();
    store
        .save_acl(
            "tenants@admin",
            &AclAction::Write,
            "/tmp/T/*.txt",
            "self",
            &AclDecision::Allow,
            "tester_admin",
        )
        .unwrap();
    let ans = is_authz_db(
        &store,
        "tenants@admin",
        "self",
        "/tmp/T/subdir2/bam.zip",
        &AclAction::Write,
    )
    .unwrap();
    assert_eq!(ans.allowed, false);
    assert_eq!(ans.acl_id, None);
}

#[test]
fn deny_read_denies_higher_actions() {
    let mut store = AclStore::new();
    store
        .save_acl(
            "svc",
            &AclAction::Read,
            "/data/secret.txt",
            "self",
            &AclDecision::Deny,
            "admin",
        )
        .unwrap();
    let write_ans = is_authz_db(&store, "svc", "self", "/data/secret.txt", &AclAction::Write)
        .unwrap();
    assert_eq!(write_ans.allowed, false);
    assert_ne!(write_ans.acl_id, None);
    let exec_ans = is_authz_db(&store, "svc", "self", "/data/secret.txt", &AclAction::Execute)
        .unwrap();
    assert_eq!(exec_ans.allowed, false);
    assert_ne!(exec_ans.acl_id, None);
}

#[test]
fn subject_must_match_exactly() {
    let mut store = AclStore::new();
    store
        .save_acl(
            "svc",
            &AclAction::Write,
            "/data/*",
            "self",
            &AclDecision::Allow,
            "admin",
        )
        .unwrap();
    let ans = is_authz_db(&store, "other", "self", "/data/a.txt", &AclAction::Read).unwrap();
    assert_eq!(ans.allowed, false);
    assert_eq!(ans.acl_id, None);
}

#[test]
fn user_field_may_be_wildcarded() {
    let mut store = AclStore::new();
    store
        .save_acl(
            "svc",
            &AclAction::Read,
            "/data/a.txt",
            "user*",
            &AclDecision::Allow,
            "admin",
        )
        .unwrap();
    let ans = is_authz_db(&store, "svc", "user42", "/data/a.txt", &AclAction::Read).unwrap();
    assert_eq!(ans.allowed, true);
    let miss = is_authz_db(&store, "svc", "nobody", "/data/a.txt", &AclAction::Read).unwrap();
    assert_eq!(miss.allowed, false);
}

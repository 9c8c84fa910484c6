//! The wildcard matcher's contract: case-insensitive, `*` spanning `/`,
//! and pattern faults surfacing as errors rather than decisions.

use tagent::authz::{check_acl_for_match, AuthCheckError};
use tagent::globmatch::check_acl_glob_for_match;
use tagent::models::{AclAction, AclDecision, DbAcl};
use tagent::store::AclStore;

#[test]
fn glob_star_spans_subdirectories() {
    assert_eq!(check_acl_glob_for_match("/base/*", "/base/x/y/z.txt").unwrap(), true);
}

#[test]
fn glob_matching_is_case_insensitive() {
    assert_eq!(check_acl_glob_for_match("/Base/*.TXT", "/base/foo.txt").unwrap(), true);
}

#[test]
fn glob_question_mark_matches_one_character() {
    assert_eq!(check_acl_glob_for_match("/b/f?o.txt", "/b/foo.txt").unwrap(), true);
    assert_eq!(check_acl_glob_for_match("/b/f?o.txt", "/b/fooo.txt").unwrap(), false);
}

#[test]
fn glob_mismatch_is_false() {
    assert_eq!(check_acl_glob_for_match("/base/*.txt", "/base/song.mp3").unwrap(), false);
}

#[test]
fn ill_formed_pattern_is_an_error() {
    assert!(check_acl_glob_for_match("[", "/anything").is_err());
}

#[test]
fn match_predicate_applies_action_hierarchy() {
    let acl = DbAcl {
        id: 1,
        subject: String::from("svc"),
        action: String::from("Write"),
        path: String::from("/d/*"),
        user: String::from("self"),
        create_by: String::from("c"),
        create_time: String::from("t"),
        decision: String::from("Allow"),
    };
    assert_eq!(check_acl_for_match("svc", "self", "/d/a", "Read", &acl).unwrap(), true);
    assert_eq!(check_acl_for_match("svc", "self", "/d/a", "Execute", &acl).unwrap(), true);
    assert_eq!(check_acl_for_match("svc", "self", "/d/a", "Write", &acl).unwrap(), true);
    let deny = DbAcl { decision: String::from("Deny"), action: String::from("Execute"), ..acl };
    assert_eq!(check_acl_for_match("svc", "self", "/d/a", "Read", &deny).unwrap(), false);
    assert_eq!(check_acl_for_match("svc", "self", "/d/a", "Execute", &deny).unwrap(), true);
    assert_eq!(check_acl_for_match("svc", "self", "/d/a", "Write", &deny).unwrap(), true);
}

#[test]
fn decision_engine_surfaces_pattern_fault() {
    let mut store = AclStore::new();
    store
        .save_acl("svc", &AclAction::Read, "/[", "self", &AclDecision::Allow, "c")
        .unwrap();
    let err = tagent::authz::is_authz_db(&store, "svc", "self", "/other", &AclAction::Read)
        .unwrap_err();
    assert!(matches!(err, AuthCheckError::Glb(_)));
}

#[test]
fn is_leq_action_orders_the_enumeration() {
    let read = DbAcl {
        id: 1,
        subject: String::from("s"),
        action: String::from("Read"),
        path: String::from("/p"),
        user: String::from("u"),
        create_by: String::from("c"),
        create_time: String::from("t"),
        decision: String::from("Allow"),
    };
    assert!(read.is_leq_action("Read"));
    assert!(read.is_leq_action("Execute"));
    assert!(read.is_leq_action("Write"));
    let exec = DbAcl { action: String::from("Execute"), ..read };
    assert!(!exec.is_leq_action("Read"));
    assert!(exec.is_leq_action("Execute"));
    assert!(exec.is_leq_action("Write"));
    let write = DbAcl { action: String::from("Write"), ..exec };
    assert!(!write.is_leq_action("Read"));
    assert!(!write.is_leq_action("Execute"));
    assert!(write.is_leq_action("Write"));
}

#[test]
fn action_and_decision_parse_only_the_enumerations() {
    assert_eq!(AclAction::parse("Read"), Some(AclAction::Read));
    assert_eq!(AclAction::parse("Execute"), Some(AclAction::Execute));
    assert_eq!(AclAction::parse("Write"), Some(AclAction::Write));
    assert_eq!(AclAction::parse("read"), None);
    assert_eq!(AclAction::parse("Chmod"), None);
    assert_eq!(AclDecision::parse("Allow"), Some(AclDecision::Allow));
    assert_eq!(AclDecision::parse("Deny"), Some(AclDecision::Deny));
    assert_eq!(AclDecision::parse("Maybe"), None);
}

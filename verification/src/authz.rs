//! The decision engine: given `(subject, user, action, path)`, compute an
//! authorization answer under deny-overrides-allow, the action hierarchy
//! `Read < Execute < Write`, and default-deny.

use vstd::prelude::*;

verus! {

use crate::globmatch::{check_acl_glob_for_match, glob_matches_ci, glob_pattern_ok};
use crate::models::{action_leq, lemma_acl_literals_distinct, valid_action_str, AclAction,
    AclDecision, DbAcl};
use crate::representations::AuthAnswer;
use crate::store::{lemma_filter_elements, subject_decision_pred, AclStore};
use crate::strutil::str_eq;

/// An error generated during an authorization check: either a storage
/// failure while reading rules, or an ill-formed wildcard pattern in a
/// consulted record.
#[derive(Debug)]
pub enum AuthCheckError {
    Db(crate::store::StoreError),
    Glb(glob::PatternError),
}

/// Outcome of holding one record against a query tuple, examining the
/// fields in order: subject exactly; user exactly or by wildcard; path
/// exactly or by wildcard; action exactly or through the hierarchy (an
/// Allow at a higher action covers lower ones, a Deny at a lower action
/// covers higher ones). `Err` exactly where a wildcard field that has to be
/// consulted is an ill-formed pattern.
pub open spec fn acl_match_check(
    acl: DbAcl,
    sub: Seq<char>,
    usr: Seq<char>,
    pth: Seq<char>,
    act: Seq<char>,
) -> Result<bool, ()> {
    if acl.subject@ != sub {
        Ok(false)
    } else if usr != acl.user@ && !glob_pattern_ok(acl.user@) {
        Err(())
    } else if usr != acl.user@ && !glob_matches_ci(acl.user@, usr) {
        Ok(false)
    } else if pth != acl.path@ && !glob_pattern_ok(acl.path@) {
        Err(())
    } else if pth != acl.path@ && !glob_matches_ci(acl.path@, pth) {
        Ok(false)
    } else if act != acl.action@ && acl.decision@ == "Allow"@ && action_leq(acl.action@, act) {
        Ok(false)
    } else if act != acl.action@ && acl.decision@ != "Allow"@ && !action_leq(acl.action@, act) {
        Ok(false)
    } else {
        Ok(true)
    }
}

/// Whether the record matches the tuple outright.
pub open spec fn acl_matches(
    acl: DbAcl,
    sub: Seq<char>,
    usr: Seq<char>,
    pth: Seq<char>,
    act: Seq<char>,
) -> bool {
    acl_match_check(acl, sub, usr, pth, act) == Ok::<bool, ()>(true)
}

/// The first record of the sequence that matches the tuple, scanning front
/// to back; `Err` where a consulted record holds an ill-formed pattern
/// before any match is found.
pub open spec fn first_match(
    acls: Seq<DbAcl>,
    sub: Seq<char>,
    usr: Seq<char>,
    pth: Seq<char>,
    act: Seq<char>,
) -> Result<Option<DbAcl>, ()>
    decreases acls.len(),
{
    if acls.len() == 0 {
        Ok(None)
    } else {
        match acl_match_check(acls[0], sub, usr, pth, act) {
            Err(e) => Err(e),
            Ok(true) => Ok(Some(acls[0])),
            Ok(false) => first_match(acls.drop_first(), sub, usr, pth, act),
        }
    }
}

/// What the decision engine answers over a store's records: the Deny pass
/// strictly precedes the Allow pass, and where neither pass matches the
/// answer is `false` with no deciding record — default deny.
pub open spec fn authz_decision(
    acls: Seq<DbAcl>,
    sub: Seq<char>,
    usr: Seq<char>,
    pth: Seq<char>,
    act: Seq<char>,
) -> Result<AuthAnswer, ()> {
    let denies = acls.filter(subject_decision_pred(sub, "Deny"@));
    let allows = acls.filter(subject_decision_pred(sub, "Allow"@));
    match first_match(denies, sub, usr, pth, act) {
        Err(e) => Err(e),
        Ok(Some(a)) => Ok(AuthAnswer { allowed: false, acl_id: Some(a.id) }),
        Ok(None) => match first_match(allows, sub, usr, pth, act) {
            Err(e) => Err(e),
            Ok(Some(a)) => Ok(AuthAnswer { allowed: true, acl_id: Some(a.id) }),
            Ok(None) => Ok(AuthAnswer { allowed: false, acl_id: None }),
        },
    }
}

/// Hold one record against a query tuple.
pub fn check_acl_for_match(sub: &str, usr: &str, pth: &str, act: &str, acl: &DbAcl) -> (r: Result<
    bool,
    glob::PatternError,
>)
    ensures
        r is Ok <==> acl_match_check(*acl, sub@, usr@, pth@, act@) is Ok,
        r matches Ok(m) ==> Ok::<bool, ()>(m) == acl_match_check(*acl, sub@, usr@, pth@, act@),
{
    if !str_eq(sub, acl.subject.as_str()) {
        return Ok(false);
    }
    if !str_eq(usr, acl.user.as_str()) {
        if !(check_acl_glob_for_match(acl.user.as_str(), usr)?) {
            return Ok(false);
        }
    }
    if !str_eq(pth, acl.path.as_str()) {
        if !(check_acl_glob_for_match(acl.path.as_str(), pth)?) {
            return Ok(false);
        }
    }
    if !str_eq(acl.action.as_str(), act) {
        if str_eq(acl.decision.as_str(), "Allow") {
            if acl.is_leq_action(act) {
                return Ok(false);
            }
        } else {
            if !acl.is_leq_action(act) {
                return Ok(false);
            }
        }
    }
    Ok(true)
}

/// Skipping past a record that does not match leaves the scan's outcome
/// unchanged.
proof fn lemma_first_match_skip_step(
    acls: Seq<DbAcl>,
    sub: Seq<char>,
    usr: Seq<char>,
    pth: Seq<char>,
    act: Seq<char>,
    i: int,
)
    requires
        0 <= i < acls.len(),
        acl_match_check(acls[i], sub, usr, pth, act) == Ok::<bool, ()>(false),
    ensures
        first_match(acls.skip(i), sub, usr, pth, act) == first_match(
            acls.skip(i + 1),
            sub,
            usr,
            pth,
            act,
        ),
{
    assert(acls.skip(i)[0] == acls[i]);
    assert(acls.skip(i).drop_first() =~= acls.skip(i + 1));
}

/// Scan a class of records for the first match, in the order the store
/// returned them.
fn scan_for_match(acls: &Vec<DbAcl>, sub: &str, usr: &str, pth: &str, act: &str) -> (r: Result<
    Option<DbAcl>,
    glob::PatternError,
>)
    ensures
        r is Ok <==> first_match(acls@, sub@, usr@, pth@, act@) is Ok,
        r matches Ok(o) ==> Ok::<Option<DbAcl>, ()>(o) == first_match(
            acls@,
            sub@,
            usr@,
            pth@,
            act@,
        ),
{
    let ghost full = first_match(acls@, sub@, usr@, pth@, act@);
    let mut i: usize = 0;
    proof {
        assert(acls@.skip(0) =~= acls@);
    }
    while i < acls.len()
        invariant
            i <= acls.len(),
            full == first_match(acls@, sub@, usr@, pth@, act@),
            full == first_match(acls@.skip(i as int), sub@, usr@, pth@, act@),
        decreases acls.len() - i,
    {
        proof {
            assert(acls@.skip(i as int)[0] == acls@[i as int]);
        }
        match check_acl_for_match(sub, usr, pth, act, &acls[i]) {
            Err(e) => {
                return Err(e);
            },
            Ok(true) => {
                return Ok(Some(acls[i].duplicate()));
            },
            Ok(false) => {
                proof {
                    lemma_first_match_skip_step(acls@, sub@, usr@, pth@, act@, i as int);
                }
            },
        }
        i = i + 1;
    }
    proof {
        assert(acls@.skip(acls@.len() as int) =~= Seq::<DbAcl>::empty());
    }
    Ok(None)
}

/// Check whether a subject is authorized for an action on a path as a user:
/// the Deny pass first, then the Allow pass, then default deny.
pub fn is_authz_db(store: &AclStore, sub: &str, usr: &str, pth: &str, act: &AclAction) -> (r: Result<
    AuthAnswer,
    AuthCheckError,
>)
    ensures
        r is Ok <==> authz_decision(store@, sub@, usr@, pth@, act.spec_str()) is Ok,
        r matches Ok(ans) ==> Ok::<AuthAnswer, ()>(ans) == authz_decision(
            store@,
            sub@,
            usr@,
            pth@,
            act.spec_str(),
        ),
        r matches Err(e) ==> e is Glb,
{
    let act_str = act.to_text();
    let deny = AclDecision::Deny;
    let deny_acls = store.retrieve_acls_for_subject_decision(sub, &deny);
    match scan_for_match(&deny_acls, sub, usr, pth, act_str.as_str()) {
        Err(e) => {
            return Err(AuthCheckError::Glb(e));
        },
        Ok(Some(a)) => {
            return Ok(AuthAnswer { allowed: false, acl_id: Some(a.id) });
        },
        Ok(None) => {},
    }
    let allow = AclDecision::Allow;
    let allow_acls = store.retrieve_acls_for_subject_decision(sub, &allow);
    match scan_for_match(&allow_acls, sub, usr, pth, act_str.as_str()) {
        Err(e) => Err(AuthCheckError::Glb(e)),
        Ok(Some(a)) => Ok(AuthAnswer { allowed: true, acl_id: Some(a.id) }),
        Ok(None) => Ok(AuthAnswer { allowed: false, acl_id: None }),
    }
}

/// A scan over records that all fail to match finds nothing.
proof fn lemma_first_match_none(
    acls: Seq<DbAcl>,
    sub: Seq<char>,
    usr: Seq<char>,
    pth: Seq<char>,
    act: Seq<char>,
)
    requires
        forall|i: int|
            0 <= i < acls.len() ==> acl_match_check(#[trigger] acls[i], sub, usr, pth, act)
                == Ok::<bool, ()>(false),
    ensures
        first_match(acls, sub, usr, pth, act) == Ok::<Option<DbAcl>, ()>(None),
    decreases acls.len(),
{
    if acls.len() > 0 {
        assert(forall|i: int|
            0 <= i < acls.drop_first().len() ==> acl_match_check(
                #[trigger] acls.drop_first()[i],
                sub,
                usr,
                pth,
                act,
            ) == Ok::<bool, ()>(false));
        lemma_first_match_none(acls.drop_first(), sub, usr, pth, act);
    }
}

/// A scan over records that never fault, one of which matches, finds a
/// matching record.
proof fn lemma_first_match_finds(
    acls: Seq<DbAcl>,
    sub: Seq<char>,
    usr: Seq<char>,
    pth: Seq<char>,
    act: Seq<char>,
)
    requires
        forall|i: int|
            0 <= i < acls.len() ==> acl_match_check(#[trigger] acls[i], sub, usr, pth, act) is Ok,
        exists|i: int|
            0 <= i < acls.len() && acl_matches(#[trigger] acls[i], sub, usr, pth, act),
    ensures
        first_match(acls, sub, usr, pth, act) is Ok,
        first_match(acls, sub, usr, pth, act)->Ok_0 is Some,
        acl_matches(first_match(acls, sub, usr, pth, act)->Ok_0->Some_0, sub, usr, pth, act),
    decreases acls.len(),
{
    let k = choose|i: int| 0 <= i < acls.len() && acl_matches(#[trigger] acls[i], sub, usr, pth, act);
    if acl_match_check(acls[0], sub, usr, pth, act) == Ok::<bool, ()>(true) {
    } else {
        assert(k != 0);
        assert(acls.drop_first()[k - 1] == acls[k]);
        assert(forall|i: int|
            0 <= i < acls.drop_first().len() ==> acl_match_check(
                #[trigger] acls.drop_first()[i],
                sub,
                usr,
                pth,
                act,
            ) is Ok);
        lemma_first_match_finds(acls.drop_first(), sub, usr, pth, act);
    }
}

/// Law (default deny): where no record of the store matches the tuple, the
/// engine answers `false` with no deciding record.
pub proof fn lemma_default_deny(
    acls: Seq<DbAcl>,
    sub: Seq<char>,
    usr: Seq<char>,
    pth: Seq<char>,
    act: Seq<char>,
)
    requires
        forall|i: int|
            0 <= i < acls.len() ==> acl_match_check(#[trigger] acls[i], sub, usr, pth, act)
                == Ok::<bool, ()>(false),
    ensures
        authz_decision(acls, sub, usr, pth, act) == Ok::<AuthAnswer, ()>(
            AuthAnswer { allowed: false, acl_id: None },
        ),
{
    let denies = acls.filter(subject_decision_pred(sub, "Deny"@));
    let allows = acls.filter(subject_decision_pred(sub, "Allow"@));
    lemma_filter_elements(acls, subject_decision_pred(sub, "Deny"@));
    lemma_filter_elements(acls, subject_decision_pred(sub, "Allow"@));
    assert forall|i: int|
        0 <= i < denies.len() implies acl_match_check(#[trigger] denies[i], sub, usr, pth, act)
        == Ok::<bool, ()>(false) by {
        assert(acls.contains(denies[i]));
        let j = choose|j: int| 0 <= j < acls.len() && acls[j] == denies[i];
        assert(acl_match_check(acls[j], sub, usr, pth, act) == Ok::<bool, ()>(false));
    }
    assert forall|i: int|
        0 <= i < allows.len() implies acl_match_check(#[trigger] allows[i], sub, usr, pth, act)
        == Ok::<bool, ()>(false) by {
        assert(acls.contains(allows[i]));
        let j = choose|j: int| 0 <= j < acls.len() && acls[j] == allows[i];
        assert(acl_match_check(acls[j], sub, usr, pth, act) == Ok::<bool, ()>(false));
    }
    lemma_first_match_none(denies, sub, usr, pth, act);
    lemma_first_match_none(allows, sub, usr, pth, act);
}

/// Law (deny precedence): where some Deny record of the subject matches the
/// tuple and no consulted record faults, the engine answers `false`,
/// whatever Allow records match.
pub proof fn lemma_deny_precedence(
    acls: Seq<DbAcl>,
    sub: Seq<char>,
    usr: Seq<char>,
    pth: Seq<char>,
    act: Seq<char>,
)
    requires
        forall|i: int|
            0 <= i < acls.len() ==> acl_match_check(#[trigger] acls[i], sub, usr, pth, act) is Ok,
        exists|i: int|
            0 <= i < acls.len() && (#[trigger] acls[i]).decision@ == "Deny"@ && acl_matches(
                acls[i],
                sub,
                usr,
                pth,
                act,
            ),
    ensures
        authz_decision(acls, sub, usr, pth, act) is Ok,
        authz_decision(acls, sub, usr, pth, act)->Ok_0.allowed == false,
        authz_decision(acls, sub, usr, pth, act)->Ok_0.acl_id is Some,
{
    let denies = acls.filter(subject_decision_pred(sub, "Deny"@));
    let k = choose|i: int|
        0 <= i < acls.len() && (#[trigger] acls[i]).decision@ == "Deny"@ && acl_matches(
            acls[i],
            sub,
            usr,
            pth,
            act,
        );
    assert(acls[k].subject@ == sub);
    acls.lemma_filter_contains(subject_decision_pred(sub, "Deny"@), k);
    assert(denies.contains(acls[k]));
    lemma_filter_elements(acls, subject_decision_pred(sub, "Deny"@));
    assert forall|i: int|
        0 <= i < denies.len() implies acl_match_check(#[trigger] denies[i], sub, usr, pth, act)
        is Ok by {
        assert(acls.contains(denies[i]));
        let j = choose|j: int| 0 <= j < acls.len() && acls[j] == denies[i];
        assert(acl_match_check(acls[j], sub, usr, pth, act) is Ok);
    }
    let kk = choose|i: int| 0 <= i < denies.len() && denies[i] == acls[k];
    assert(acl_matches(denies[kk], sub, usr, pth, act));
    lemma_first_match_finds(denies, sub, usr, pth, act);
}

/// Law (action monotonicity, Allow side): an Allow record at `Write` whose
/// subject, user and path components match grants every action of the
/// enumeration, provided no Deny record matches and no consulted record
/// faults.
pub proof fn lemma_allow_write_grants_all(
    acls: Seq<DbAcl>,
    sub: Seq<char>,
    usr: Seq<char>,
    pth: Seq<char>,
    act: Seq<char>,
    k: int,
)
    requires
        forall|i: int|
            0 <= i < acls.len() ==> acl_match_check(#[trigger] acls[i], sub, usr, pth, act) is Ok,
        forall|i: int|
            0 <= i < acls.len() && (#[trigger] acls[i]).decision@ == "Deny"@ ==> acl_match_check(
                acls[i],
                sub,
                usr,
                pth,
                act,
            ) == Ok::<bool, ()>(false),
        0 <= k < acls.len(),
        acls[k].decision@ == "Allow"@,
        acls[k].subject@ == sub,
        acls[k].action@ == "Write"@,
        usr == acls[k].user@ || glob_matches_ci(acls[k].user@, usr),
        pth == acls[k].path@ || glob_matches_ci(acls[k].path@, pth),
        valid_action_str(act),
    ensures
        authz_decision(acls, sub, usr, pth, act) is Ok,
        authz_decision(acls, sub, usr, pth, act)->Ok_0.allowed == true,
{
    lemma_acl_literals_distinct();
    assert(acl_matches(acls[k], sub, usr, pth, act));
    let denies = acls.filter(subject_decision_pred(sub, "Deny"@));
    let allows = acls.filter(subject_decision_pred(sub, "Allow"@));
    lemma_filter_elements(acls, subject_decision_pred(sub, "Deny"@));
    lemma_filter_elements(acls, subject_decision_pred(sub, "Allow"@));
    assert forall|i: int|
        0 <= i < denies.len() implies acl_match_check(#[trigger] denies[i], sub, usr, pth, act)
        == Ok::<bool, ()>(false) by {
        assert(acls.contains(denies[i]));
        let j = choose|j: int| 0 <= j < acls.len() && acls[j] == denies[i];
        assert(subject_decision_pred(sub, "Deny"@)(denies[i]));
        assert(acl_match_check(acls[j], sub, usr, pth, act) == Ok::<bool, ()>(false));
    }
    lemma_first_match_none(denies, sub, usr, pth, act);
    assert forall|i: int|
        0 <= i < allows.len() implies acl_match_check(#[trigger] allows[i], sub, usr, pth, act)
        is Ok by {
        assert(acls.contains(allows[i]));
        let j = choose|j: int| 0 <= j < acls.len() && acls[j] == allows[i];
        assert(acl_match_check(acls[j], sub, usr, pth, act) is Ok);
    }
    acls.lemma_filter_contains(subject_decision_pred(sub, "Allow"@), k);
    assert(allows.contains(acls[k]));
    let kk = choose|i: int| 0 <= i < allows.len() && allows[i] == acls[k];
    assert(acl_matches(allows[kk], sub, usr, pth, act));
    lemma_first_match_finds(allows, sub, usr, pth, act);
}

/// Law (action monotonicity, Deny side): a Deny record at `Read` whose
/// subject, user and path components match denies every action, provided no
/// consulted record faults.
pub proof fn lemma_deny_read_denies_all(
    acls: Seq<DbAcl>,
    sub: Seq<char>,
    usr: Seq<char>,
    pth: Seq<char>,
    act: Seq<char>,
    k: int,
)
    requires
        forall|i: int|
            0 <= i < acls.len() ==> acl_match_check(#[trigger] acls[i], sub, usr, pth, act) is Ok,
        0 <= k < acls.len(),
        acls[k].decision@ == "Deny"@,
        acls[k].subject@ == sub,
        acls[k].action@ == "Read"@,
        usr == acls[k].user@ || glob_matches_ci(acls[k].user@, usr),
        pth == acls[k].path@ || glob_matches_ci(acls[k].path@, pth),
    ensures
        authz_decision(acls, sub, usr, pth, act) is Ok,
        authz_decision(acls, sub, usr, pth, act)->Ok_0.allowed == false,
        authz_decision(acls, sub, usr, pth, act)->Ok_0.acl_id is Some,
{
    lemma_acl_literals_distinct();
    assert(acl_matches(acls[k], sub, usr, pth, act));
    lemma_deny_precedence(acls, sub, usr, pth, act);
}

} // verus!

//! The management surface: one core function per endpoint. Each resolves
//! the caller's identity from the token header, performs the operation on
//! the store, and builds the response envelope; the transport around them
//! only moves bytes.

use vstd::prelude::*;

verus! {

use crate::auth::get_subject_of_request;
use crate::authz::{authz_decision, is_authz_db, AuthCheckError};
use crate::models::{valid_action_str, AclAction, DbAcl, NewAclJson};
use crate::representations::{acl_of_record, Acl, AclAuthzCheckRsp, AclByIdRsp, AclListingRsp,
    AclStringRsp, ApiError, ErrorKind, Ready};
use crate::store::{find_by_id, keep_other_pred, subject_pred, subject_user_pred, AclStore,
    StoreError};
use crate::strutil::{concat3, normalize_path, spec_normalize_path};

/// The readiness payload.
pub fn ready(version: &str) -> (r: Ready)
    ensures
        r.status@ == "success"@,
        r.message@ == "tagent ready."@,
        r.result@ == "None"@,
        r.version@ == version@,
{
    Ready {
        status: String::from_str("success"),
        message: String::from_str("tagent ready."),
        result: String::from_str("None"),
        version: version.to_owned(),
    }
}

/// The failure every unregistered route answers with.
pub fn not_found() -> (e: ApiError)
    ensures
        e.kind == ErrorKind::NotImplemented,
        e.message@ == "The API endpoint does not exist; check the URL path and HTTP verb."@,
{
    ApiError::new(
        ErrorKind::NotImplemented,
        String::from_str("The API endpoint does not exist; check the URL path and HTTP verb."),
    )
}

/// Map a decision-engine failure to its wire classification.
pub fn policy_check_error(e: AuthCheckError) -> (r: ApiError)
    ensures
        r.kind == ErrorKind::PolicyCheckError,
{
    match e {
        AuthCheckError::Db(_) => ApiError::new(
            ErrorKind::PolicyCheckError,
            String::from_str("Unable to calculate auth check; details: storage failure"),
        ),
        AuthCheckError::Glb(_) => ApiError::new(
            ErrorKind::PolicyCheckError,
            String::from_str(
                "Unable to calculate auth check; details: invalid glob pattern in a stored ACL",
            ),
        ),
    }
}

/// Create a rule: the caller's verified subject becomes the audit field,
/// the path is normalized, the timestamp is server-assigned.
pub fn create_acl(
    store: &mut AclStore,
    token: Option<&str>,
    pub_key: &jwt_simple::algorithms::RS256PublicKey,
    version: &str,
    acl: &NewAclJson,
) -> (r: Result<AclStringRsp, ApiError>)
    requires
        old(store).wf(),
    ensures
        final(store).wf(),
        token is None ==> r is Err && r->Err_0.kind == ErrorKind::AuthMissing,
        r matches Err(e) ==> {
            &&& (e.kind == ErrorKind::AuthMissing || e.kind == ErrorKind::AuthInvalid || e.kind
                == ErrorKind::InputInvalid || e.kind == ErrorKind::StorageError)
            &&& *final(store) == *old(store)
        },
        r matches Err(e) && e.kind == ErrorKind::InputInvalid ==> acl.path@.len() == 0,
        acl.path@.len() == 0 ==> r is Err,
        r matches Ok(rsp) ==> {
            &&& acl.path@.len() > 0
            &&& final(store)@.len() == old(store)@.len() + 1
            &&& final(store)@.drop_last() == old(store)@
            &&& final(store)@.last().id == old(store).spec_next_id()
            &&& final(store)@.last().subject@ == acl.subject@
            &&& final(store)@.last().action@ == acl.action.spec_str()
            &&& final(store)@.last().path@ == spec_normalize_path(acl.path@)
            &&& final(store)@.last().user@ == acl.user@
            &&& final(store)@.last().decision@ == acl.decision.spec_str()
            &&& rsp.status@ == "success"@
            &&& rsp.message@ == "ACL for subject "@ + acl.subject@
                + " created successfully."@
            &&& rsp.result@ == "none"@
            &&& rsp.version@ == version@
        },
{
    let subject = match get_subject_of_request(token, pub_key) {
        Ok(s) => s,
        Err(e) => {
            return Err(e);
        },
    };
    if acl.path.as_str().unicode_len() == 0 {
        return Err(
            ApiError::new(
                ErrorKind::InputInvalid,
                String::from_str("Invalid path: the path may not be empty."),
            ),
        );
    }
    match store.save_acl(
        acl.subject.as_str(),
        &acl.action,
        acl.path.as_str(),
        acl.user.as_str(),
        &acl.decision,
        subject.as_str(),
    ) {
        Ok(_) => Ok(
            AclStringRsp {
                status: String::from_str("success"),
                message: concat3("ACL for subject ", acl.subject.as_str(),
                    " created successfully."),
                result: String::from_str("none"),
                version: version.to_owned(),
            },
        ),
        Err(_) => Err(
            ApiError::new(
                ErrorKind::StorageError,
                String::from_str("Error accessing database: the store is full."),
            ),
        ),
    }
}

/// Render a vector of persisted records for a response, in order.
fn render_acls(records: &Vec<DbAcl>) -> (r: Vec<Acl>)
    ensures
        r@.len() == records@.len(),
        forall|i: int| 0 <= i < r@.len() ==> acl_of_record(#[trigger] r@[i], records@[i]),
{
    let mut out: Vec<Acl> = Vec::new();
    let mut i: usize = 0;
    while i < records.len()
        invariant
            i <= records.len(),
            out@.len() == i as int,
            forall|j: int| 0 <= j < i ==> acl_of_record(#[trigger] out@[j], records@[j]),
        decreases records.len() - i,
    {
        out.push(Acl::from_db_acl(&records[i]));
        i = i + 1;
    }
    out
}

/// List every rule in the store.
pub fn get_all_acls(
    store: &AclStore,
    token: Option<&str>,
    pub_key: &jwt_simple::algorithms::RS256PublicKey,
    version: &str,
) -> (r: Result<AclListingRsp, ApiError>)
    ensures
        token is None ==> r is Err && r->Err_0.kind == ErrorKind::AuthMissing,
        r matches Err(e) ==> (e.kind == ErrorKind::AuthMissing || e.kind
            == ErrorKind::AuthInvalid),
        r matches Ok(rsp) ==> {
            &&& rsp.result@.len() == store@.len()
            &&& forall|i: int|
                0 <= i < store@.len() ==> acl_of_record(#[trigger] rsp.result@[i], store@[i])
            &&& rsp.status@ == "success"@
            &&& rsp.message@ == "ACLs retrieved successfully."@
            &&& rsp.version@ == version@
        },
{
    let _subject = match get_subject_of_request(token, pub_key) {
        Ok(s) => s,
        Err(e) => {
            return Err(e);
        },
    };
    let records = store.retrieve_all_acls();
    Ok(
        AclListingRsp {
            status: String::from_str("success"),
            message: String::from_str("ACLs retrieved successfully."),
            result: render_acls(&records),
            version: version.to_owned(),
        },
    )
}

/// Fetch one rule by id.
pub fn get_acl_by_id(
    store: &AclStore,
    token: Option<&str>,
    pub_key: &jwt_simple::algorithms::RS256PublicKey,
    version: &str,
    id: i32,
) -> (r: Result<AclByIdRsp, ApiError>)
    ensures
        token is None ==> r is Err && r->Err_0.kind == ErrorKind::AuthMissing,
        r matches Err(e) ==> (e.kind == ErrorKind::AuthMissing || e.kind
            == ErrorKind::AuthInvalid || e.kind == ErrorKind::NotFound),
        r matches Err(e) && e.kind == ErrorKind::NotFound ==> find_by_id(store@, id) is None,
        r matches Ok(rsp) ==> {
            &&& find_by_id(store@, id) is Some
            &&& acl_of_record(rsp.result, find_by_id(store@, id)->Some_0)
            &&& rsp.status@ == "success"@
            &&& rsp.message@ == "ACL retrieved successfully."@
            &&& rsp.version@ == version@
        },
{
    let _subject = match get_subject_of_request(token, pub_key) {
        Ok(s) => s,
        Err(e) => {
            return Err(e);
        },
    };
    match store.retrieve_acl_by_id(id) {
        Ok(record) => Ok(
            AclByIdRsp {
                status: String::from_str("success"),
                message: String::from_str("ACL retrieved successfully."),
                result: Acl::from_db_acl(&record),
                version: version.to_owned(),
            },
        ),
        Err(_) => Err(
            ApiError::new(ErrorKind::NotFound, String::from_str("ACL not found.")),
        ),
    }
}

/// Delete one rule by id; deleting an absent id is acknowledged all the
/// same, as a rewrite of zero records.
pub fn delete_acl_by_id(
    store: &mut AclStore,
    token: Option<&str>,
    pub_key: &jwt_simple::algorithms::RS256PublicKey,
    version: &str,
    id: i32,
) -> (r: Result<AclStringRsp, ApiError>)
    requires
        old(store).wf(),
    ensures
        final(store).wf(),
        token is None ==> r is Err && r->Err_0.kind == ErrorKind::AuthMissing,
        r matches Err(e) ==> {
            &&& (e.kind == ErrorKind::AuthMissing || e.kind == ErrorKind::AuthInvalid)
            &&& *final(store) == *old(store)
        },
        r matches Ok(rsp) ==> {
            &&& final(store)@ == old(store)@.filter(keep_other_pred(id))
            &&& rsp.status@ == "success"@
            &&& rsp.message@ == "ACL deleted successfully."@
            &&& rsp.result@ == "none"@
            &&& rsp.version@ == version@
        },
{
    let _subject = match get_subject_of_request(token, pub_key) {
        Ok(s) => s,
        Err(e) => {
            return Err(e);
        },
    };
    let _count = store.delete_acl_from_db_by_id(id);
    Ok(
        AclStringRsp {
            status: String::from_str("success"),
            message: String::from_str("ACL deleted successfully."),
            result: String::from_str("none"),
            version: version.to_owned(),
        },
    )
}

/// Rewrite one rule by id: every caller-supplied field replaces the stored
/// one, the creation time stays, and the audit field is rewritten to the
/// mutating caller's subject. An empty path is rejected, as at creation.
pub fn update_acl_by_id(
    store: &mut AclStore,
    token: Option<&str>,
    pub_key: &jwt_simple::algorithms::RS256PublicKey,
    version: &str,
    id: i32,
    acl: &NewAclJson,
) -> (r: Result<AclStringRsp, ApiError>)
    requires
        old(store).wf(),
    ensures
        final(store).wf(),
        token is None ==> r is Err && r->Err_0.kind == ErrorKind::AuthMissing,
        r matches Err(e) ==> {
            &&& (e.kind == ErrorKind::AuthMissing || e.kind == ErrorKind::AuthInvalid || e.kind
                == ErrorKind::InputInvalid)
            &&& *final(store) == *old(store)
        },
        r matches Err(e) && e.kind == ErrorKind::InputInvalid ==> acl.path@.len() == 0,
        acl.path@.len() == 0 ==> r is Err,
        r matches Ok(rsp) ==> {
            &&& acl.path@.len() > 0
            &&& final(store)@.len() == old(store)@.len()
            &&& forall|i: int|
                0 <= i < old(store)@.len() && old(store)@[i].id != id ==> final(store)@[i]
                    == old(store)@[i]
            &&& forall|i: int|
                0 <= i < old(store)@.len() && old(store)@[i].id == id ==> {
                    &&& (#[trigger] final(store)@[i]).id == id
                    &&& final(store)@[i].subject@ == acl.subject@
                    &&& final(store)@[i].action@ == acl.action.spec_str()
                    &&& final(store)@[i].path@ == spec_normalize_path(acl.path@)
                    &&& final(store)@[i].user@ == acl.user@
                    &&& final(store)@[i].decision@ == acl.decision.spec_str()
                    &&& final(store)@[i].create_time == old(store)@[i].create_time
                }
            &&& rsp.status@ == "success"@
            &&& rsp.message@ == "ACL updated successfully."@
            &&& rsp.result@ == "none"@
            &&& rsp.version@ == version@
        },
{
    let subject = match get_subject_of_request(token, pub_key) {
        Ok(s) => s,
        Err(e) => {
            return Err(e);
        },
    };
    if acl.path.as_str().unicode_len() == 0 {
        return Err(
            ApiError::new(
                ErrorKind::InputInvalid,
                String::from_str("Invalid path: the path may not be empty."),
            ),
        );
    }
    let _count = store.update_acl_in_db_by_id(id, acl, subject.as_str());
    Ok(
        AclStringRsp {
            status: String::from_str("success"),
            message: String::from_str("ACL updated successfully."),
            result: String::from_str("none"),
            version: version.to_owned(),
        },
    )
}

/// List the rules of one subject.
pub fn get_acls_for_subject(
    store: &AclStore,
    token: Option<&str>,
    pub_key: &jwt_simple::algorithms::RS256PublicKey,
    version: &str,
    sub: &str,
) -> (r: Result<AclListingRsp, ApiError>)
    ensures
        token is None ==> r is Err && r->Err_0.kind == ErrorKind::AuthMissing,
        r matches Err(e) ==> (e.kind == ErrorKind::AuthMissing || e.kind
            == ErrorKind::AuthInvalid),
        r matches Ok(rsp) ==> {
            &&& rsp.result@.len() == store@.filter(subject_pred(sub@)).len()
            &&& forall|i: int|
                0 <= i < rsp.result@.len() ==> acl_of_record(
                    #[trigger] rsp.result@[i],
                    store@.filter(subject_pred(sub@))[i],
                )
            &&& rsp.status@ == "success"@
            &&& rsp.message@ == "ACLs retrieved successfully."@
            &&& rsp.version@ == version@
        },
{
    let _subject = match get_subject_of_request(token, pub_key) {
        Ok(s) => s,
        Err(e) => {
            return Err(e);
        },
    };
    let records = store.retrieve_acls_for_subject(sub);
    Ok(
        AclListingRsp {
            status: String::from_str("success"),
            message: String::from_str("ACLs retrieved successfully."),
            result: render_acls(&records),
            version: version.to_owned(),
        },
    )
}

/// List the rules of one subject acting for one user.
pub fn get_acls_for_subject_user(
    store: &AclStore,
    token: Option<&str>,
    pub_key: &jwt_simple::algorithms::RS256PublicKey,
    version: &str,
    sub: &str,
    user: &str,
) -> (r: Result<AclListingRsp, ApiError>)
    ensures
        token is None ==> r is Err && r->Err_0.kind == ErrorKind::AuthMissing,
        r matches Err(e) ==> (e.kind == ErrorKind::AuthMissing || e.kind
            == ErrorKind::AuthInvalid),
        r matches Ok(rsp) ==> {
            &&& rsp.result@.len() == store@.filter(subject_user_pred(sub@, user@)).len()
            &&& forall|i: int|
                0 <= i < rsp.result@.len() ==> acl_of_record(
                    #[trigger] rsp.result@[i],
                    store@.filter(subject_user_pred(sub@, user@))[i],
                )
            &&& rsp.status@ == "success"@
            &&& rsp.message@ == "ACLs retrieved successfully."@
            &&& rsp.version@ == version@
        },
{
    let _subject = match get_subject_of_request(token, pub_key) {
        Ok(s) => s,
        Err(e) => {
            return Err(e);
        },
    };
    let records = store.retrieve_acls_for_subject_user(sub, user);
    Ok(
        AclListingRsp {
            status: String::from_str("success"),
            message: String::from_str("ACLs retrieved successfully."),
            result: render_acls(&records),
            version: version.to_owned(),
        },
    )
}

/// Run the decision engine for a requested tuple. The action arrives as a
/// path parameter and is parsed against the closed enumeration: an unknown
/// action string is rejected as invalid input, never decided by default.
/// The query path is normalized to begin with `/` before evaluation.
pub fn is_authz_subject_user_action_path(
    store: &AclStore,
    token: Option<&str>,
    pub_key: &jwt_simple::algorithms::RS256PublicKey,
    version: &str,
    sub: &str,
    usr: &str,
    action: &str,
    pth: &str,
) -> (r: Result<AclAuthzCheckRsp, ApiError>)
    ensures
        token is None ==> r is Err && r->Err_0.kind == ErrorKind::AuthMissing,
        r matches Err(e) ==> (e.kind == ErrorKind::AuthMissing || e.kind
            == ErrorKind::AuthInvalid || e.kind == ErrorKind::InputInvalid || e.kind
            == ErrorKind::PolicyCheckError),
        r matches Err(e) && e.kind == ErrorKind::InputInvalid ==> !valid_action_str(action@),
        !valid_action_str(action@) ==> r is Err,
        r matches Err(e) && e.kind == ErrorKind::PolicyCheckError ==> authz_decision(
            store@,
            sub@,
            usr@,
            spec_normalize_path(pth@),
            action@,
        ) is Err,
        r matches Ok(rsp) ==> {
            &&& valid_action_str(action@)
            &&& Ok::<crate::representations::AuthAnswer, ()>(rsp.result) == authz_decision(
                store@,
                sub@,
                usr@,
                spec_normalize_path(pth@),
                action@,
            )
            &&& rsp.status@ == "success"@
            &&& rsp.message@ == "Result of authz check returned"@
            &&& rsp.version@ == version@
        },
{
    let _subject = match get_subject_of_request(token, pub_key) {
        Ok(s) => s,
        Err(e) => {
            return Err(e);
        },
    };
    let act = match AclAction::parse(action) {
        Some(a) => a,
        None => {
            return Err(
                ApiError::new(
                    ErrorKind::InputInvalid,
                    String::from_str(
                        "Invalid action; the action must be one of Read, Execute, Write.",
                    ),
                ),
            );
        },
    };
    let check_path = normalize_path(pth);
    match is_authz_db(store, sub, usr, check_path.as_str(), &act) {
        Ok(answer) => Ok(
            AclAuthzCheckRsp {
                status: String::from_str("success"),
                message: String::from_str("Result of authz check returned"),
                result: answer,
                version: version.to_owned(),
            },
        ),
        Err(e) => Err(policy_check_error(e)),
    }
}

} // verus!

//! The response envelope: every reply carries `{status, message, result,
//! version}`, with `status` either `"success"` or `"error"`, and errors
//! classified into a closed set of kinds.

use vstd::prelude::*;

verus! {

use crate::models::DbAcl;

/// Payload of the readiness endpoint.
#[derive(Debug)]
pub struct Ready {
    pub message: String,
    pub status: String,
    pub result: String,
    pub version: String,
}

/// The closed classification of failures a request can surface.
#[derive(Clone, Copy, Debug, PartialEq, Eq, Structural)]
pub enum ErrorKind {
    /// The token header is absent.
    AuthMissing,
    /// The token fails verification or carries no subject.
    AuthInvalid,
    /// A malformed body, path parameter, or unknown action or decision.
    InputInvalid,
    /// A record id or filesystem path that does not exist.
    NotFound,
    /// A storage or pattern failure while computing a decision.
    PolicyCheckError,
    /// A persistence failure on a management operation.
    StorageError,
    /// A filesystem failure.
    IOError,
    /// No route is registered for the request.
    NotImplemented,
}

/// A classified failure, before it is wrapped for the wire.
#[derive(Debug)]
pub struct ApiError {
    pub kind: ErrorKind,
    pub message: String,
}

impl ApiError {
    /// Bundle a kind with its message.
    pub fn new(kind: ErrorKind, message: String) -> (r: ApiError)
        ensures
            r.kind == kind,
            r.message == message,
    {
        ApiError { kind, message }
    }

    /// Wrap the failure for the wire, stamping the agent version on it.
    pub fn into_tagent_error(self, version: &str) -> (r: TagentError)
        ensures
            r.message == self.message,
            r.version@ == version@,
    {
        TagentError { message: self.message, version: version.to_owned() }
    }
}

/// The wire shape of a failed request.
#[derive(Debug, PartialEq)]
pub struct ErrorRsp {
    pub message: String,
    pub status: String,
    pub result: String,
    pub version: String,
}

/// The error type handlers surface; it renders as a 400 envelope.
#[derive(Debug, PartialEq)]
pub struct TagentError {
    pub message: String,
    pub version: String,
}

impl TagentError {
    /// An error carrying an explicit agent version.
    pub fn new(message: String, version: String) -> (r: TagentError)
        ensures
            r.message == message,
            r.version == version,
    {
        TagentError { message, version }
    }

    /// An error stamped with this library's own version.
    pub fn new_with_version(message: String) -> (r: TagentError)
        ensures
            r.message == message,
            r.version@ == crate::spec_version(),
    {
        TagentError { message, version: crate::tagent_version() }
    }

    /// The envelope a failed request answers with: `status` is `"error"`,
    /// the `result` is the fixed filler string.
    pub fn error_rsp(&self) -> (r: ErrorRsp)
        ensures
            r.status@ == "error"@,
            r.result@ == "none"@,
            r.message@ == self.message@,
            r.version@ == self.version@,
    {
        ErrorRsp {
            status: String::from_str("error"),
            message: self.message.clone(),
            result: String::from_str("none"),
            version: self.version.clone(),
        }
    }
}

/// Responses of management operations whose result is a plain string.
#[derive(Debug)]
pub struct AclStringRsp {
    pub message: String,
    pub status: String,
    pub result: String,
    pub version: String,
}

/// A record formatted for a response.
#[derive(Debug, PartialEq)]
pub struct Acl {
    pub id: i32,
    pub subject: String,
    pub action: String,
    pub path: String,
    pub user: String,
    pub decision: String,
    pub create_by: String,
    pub create_time: String,
}

impl Acl {
    /// Convert a persisted record to its response shape, field for field.
    pub fn from_db_acl(db_acl: &DbAcl) -> (r: Acl)
        ensures
            r.id == db_acl.id,
            r.subject == db_acl.subject,
            r.action == db_acl.action,
            r.path == db_acl.path,
            r.user == db_acl.user,
            r.decision == db_acl.decision,
            r.create_by == db_acl.create_by,
            r.create_time == db_acl.create_time,
    {
        Acl {
            id: db_acl.id,
            subject: db_acl.subject.clone(),
            action: db_acl.action.clone(),
            path: db_acl.path.clone(),
            user: db_acl.user.clone(),
            decision: db_acl.decision.clone(),
            create_by: db_acl.create_by.clone(),
            create_time: db_acl.create_time.clone(),
        }
    }
}

/// Whether a response-shaped record carries exactly the fields of a
/// persisted record.
pub open spec fn acl_of_record(a: Acl, d: DbAcl) -> bool {
    &&& a.id == d.id
    &&& a.subject == d.subject
    &&& a.action == d.action
    &&& a.path == d.path
    &&& a.user == d.user
    &&& a.decision == d.decision
    &&& a.create_by == d.create_by
    &&& a.create_time == d.create_time
}

/// Response holding a list of records.
#[derive(Debug)]
pub struct AclListingRsp {
    pub message: String,
    pub status: String,
    pub version: String,
    pub result: Vec<Acl>,
}

/// Response holding one record.
#[derive(Debug)]
pub struct AclByIdRsp {
    pub message: String,
    pub status: String,
    pub version: String,
    pub result: Acl,
}

/// The decision payload: whether the tuple is authorized, and the record
/// that decided it, where one did.
#[derive(Debug, PartialEq)]
pub struct AuthAnswer {
    pub allowed: bool,
    pub acl_id: Option<i32>,
}

/// Response of the authorization check endpoint.
#[derive(Debug)]
pub struct AclAuthzCheckRsp {
    pub message: String,
    pub status: String,
    pub result: AuthAnswer,
    pub version: String,
}

/// Response holding the names under a listed path.
#[derive(Debug)]
pub struct FileListingRsp {
    pub message: String,
    pub status: String,
    pub version: String,
    pub result: Vec<String>,
}

/// Response of a completed upload.
#[derive(Debug)]
pub struct FileUploadRsp {
    pub message: String,
    pub status: String,
    pub version: String,
    pub result: String,
}

} // verus!

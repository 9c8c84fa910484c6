//! The file-operation gate: the decisions around listing, download and
//! upload. The filesystem itself is only probed and streamed by the
//! transport, which hands the probe results in as plain values.

use vstd::prelude::*;

verus! {

use crate::auth::get_subject_of_request;
use crate::authz::{authz_decision, is_authz_db};
use crate::handlers::policy_check_error;
use crate::models::AclAction;
use crate::representations::{ApiError, AuthAnswer, ErrorKind, FileListingRsp, FileUploadRsp};
use crate::store::AclStore;
use crate::strutil::{concat3, normalize_path, spec_normalize_path, str_eq};

/// What `sanitize_filename::sanitize_with_options` returns for a filename
/// under this library's fixed options; a function of the name alone.
pub uninterp spec fn sanitize_of(name: Seq<char>) -> Seq<char>;

/// Strip a caller-supplied filename of anything that could escape the
/// target directory.
///
/// Relies on `sanitize_filename::sanitize_with_options` with fixed options
/// (`windows: false`, `truncate: true`, empty replacement): the result is a
/// function of the name alone, and the illegal-character class it removes
/// includes the path separator, so no `/` survives.
#[verifier::external_body]
fn sanitize(name: &str) -> (r: String)
    ensures
        r@ == sanitize_of(name@),
        forall|i: int| 0 <= i < r@.len() ==> r@[i] != '/',
{
    sanitize_filename::sanitize_with_options(
        name,
        sanitize_filename::Options { windows: false, truncate: true, replacement: "" },
    )
}

/// A fresh name for a part that carries no filename.
///
/// Relies on `uuid::Uuid::new_v4` and its `Display`, the canonical
/// hyphenated rendering: 36 characters, hexadecimal digits and hyphens
/// only. The value is random, so only its shape is promised.
#[verifier::external_body]
fn fresh_uuid() -> (r: String)
    ensures
        r@.len() == 36,
        forall|i: int| 0 <= i < r@.len() ==> r@[i] != '/',
{
    uuid::Uuid::new_v4().to_string()
}

/// The name a new upload is stored under: the part's filename sanitized of
/// any directory separators, or a fresh UUID where the part carries none.
/// Either way, no separator survives in the name.
pub fn upload_filename(provided: Option<&str>) -> (r: String)
    ensures
        provided matches Some(n) ==> r@ == sanitize_of(n@),
        forall|i: int| 0 <= i < r@.len() ==> r@[i] != '/',
{
    match provided {
        Some(n) => sanitize(n),
        None => fresh_uuid(),
    }
}

/// The absolute path of `rel` under `root`: the root itself where the
/// relative part is empty or the bare separator.
pub fn join_under_root(root: &str, rel: &str) -> (r: String)
    ensures
        r@ == if rel@.len() == 0 || rel@ == "/"@ {
            root@
        } else {
            root@ + "/"@ + rel@
        },
{
    if rel.unicode_len() == 0 || str_eq(rel, "/") {
        root.to_owned()
    } else {
        concat3(root, "/", rel)
    }
}

/// Where a new upload lands: the chosen filename inside the target
/// directory. The destination never escapes the directory: it is the
/// directory, one separator, and a name that holds no separator.
pub fn upload_destination(dir: &str, provided: Option<&str>) -> (r: String)
    ensures
        provided matches Some(n) ==> r@ == dir@ + "/"@ + sanitize_of(n@),
        r@.len() > dir@.len(),
        r@.subrange(0, dir@.len() as int) == dir@,
        r@[dir@.len() as int] == '/',
        forall|i: int| dir@.len() + 1 <= i < r@.len() ==> r@[i] != '/',
{
    proof {
        reveal_strlit("/");
    }
    let name = upload_filename(provided);
    let r = concat3(dir, "/", name.as_str());
    proof {
        assert(r@.subrange(0, dir@.len() as int) =~= dir@);
    }
    r
}

/// List a path under the root: the caller is identified first, and a path
/// the probe found absent is answered with an error envelope, never with a
/// bare failure.
pub fn list_files_path(
    token: Option<&str>,
    pub_key: &jwt_simple::algorithms::RS256PublicKey,
    version: &str,
    full_path: &str,
    path_exists: bool,
    entries: Vec<String>,
) -> (r: Result<FileListingRsp, ApiError>)
    ensures
        token is None ==> r is Err && r->Err_0.kind == ErrorKind::AuthMissing,
        r matches Err(e) ==> (e.kind == ErrorKind::AuthMissing || e.kind
            == ErrorKind::AuthInvalid || e.kind == ErrorKind::NotFound),
        r matches Err(e) ==> (e.kind == ErrorKind::NotFound ==> !path_exists
            && e.message@ == "Invalid path; path "@ + full_path@ + " does not exist"@),
        r matches Ok(rsp) ==> {
            &&& path_exists
            &&& rsp.result == entries
            &&& rsp.status@ == "success"@
            &&& rsp.message@ == "File listing retrieved successfully"@
            &&& rsp.version@ == version@
        },
{
    let _subject = match get_subject_of_request(token, pub_key) {
        Ok(s) => s,
        Err(e) => {
            return Err(e);
        },
    };
    if !path_exists {
        return Err(
            ApiError::new(
                ErrorKind::NotFound,
                concat3("Invalid path; path ", full_path, " does not exist"),
            ),
        );
    }
    Ok(
        FileListingRsp {
            status: String::from_str("success"),
            message: String::from_str("File listing retrieved successfully"),
            version: version.to_owned(),
            result: entries,
        },
    )
}

/// Gate a download: the caller is identified, the path must exist, and a
/// directory cannot be streamed. On success the verified subject is handed
/// back for the transport to stream the file.
pub fn get_file_contents_path(
    token: Option<&str>,
    pub_key: &jwt_simple::algorithms::RS256PublicKey,
    full_path: &str,
    path_exists: bool,
    is_dir: bool,
) -> (r: Result<String, ApiError>)
    ensures
        token is None ==> r is Err && r->Err_0.kind == ErrorKind::AuthMissing,
        r matches Err(e) ==> (e.kind == ErrorKind::AuthMissing || e.kind
            == ErrorKind::AuthInvalid || e.kind == ErrorKind::NotFound || e.kind
            == ErrorKind::InputInvalid),
        r matches Err(e) ==> (e.kind == ErrorKind::NotFound ==> !path_exists
            && e.message@ == "Invalid path; path "@ + full_path@ + " does not exist"@),
        r matches Err(e) ==> (e.kind == ErrorKind::InputInvalid ==> path_exists
            && is_dir && e.message@ == "Directory download is not supported"@),
        r is Ok ==> path_exists && !is_dir,
{
    let subject = match get_subject_of_request(token, pub_key) {
        Ok(s) => s,
        Err(e) => {
            return Err(e);
        },
    };
    if !path_exists {
        return Err(
            ApiError::new(
                ErrorKind::NotFound,
                concat3("Invalid path; path ", full_path, " does not exist"),
            ),
        );
    }
    if is_dir {
        return Err(
            ApiError::new(
                ErrorKind::InputInvalid,
                String::from_str("Directory download is not supported"),
            ),
        );
    }
    Ok(subject)
}

/// Gate an upload: the caller is identified, and the target must be an
/// existing directory. On success the verified subject is handed back for
/// the transport to receive the parts.
pub fn post_file_contents_path(
    token: Option<&str>,
    pub_key: &jwt_simple::algorithms::RS256PublicKey,
    full_path: &str,
    path_exists: bool,
    is_dir: bool,
) -> (r: Result<String, ApiError>)
    ensures
        token is None ==> r is Err && r->Err_0.kind == ErrorKind::AuthMissing,
        r matches Err(e) ==> (e.kind == ErrorKind::AuthMissing || e.kind
            == ErrorKind::AuthInvalid || e.kind == ErrorKind::NotFound || e.kind
            == ErrorKind::InputInvalid),
        r matches Err(e) ==> (e.kind == ErrorKind::NotFound ==> !path_exists
            && e.message@ == "Invalid path; path "@ + full_path@ + " does not exist"@),
        r matches Err(e) ==> (e.kind == ErrorKind::InputInvalid ==> path_exists
            && !is_dir && e.message@ == "Invalid path; path "@ + full_path@
            + " must be a directory"@),
        r is Ok ==> path_exists && is_dir,
{
    let subject = match get_subject_of_request(token, pub_key) {
        Ok(s) => s,
        Err(e) => {
            return Err(e);
        },
    };
    if !path_exists {
        return Err(
            ApiError::new(
                ErrorKind::NotFound,
                concat3("Invalid path; path ", full_path, " does not exist"),
            ),
        );
    }
    if !is_dir {
        return Err(
            ApiError::new(
                ErrorKind::InputInvalid,
                concat3("Invalid path; path ", full_path, " must be a directory"),
            ),
        );
    }
    Ok(subject)
}

/// The acknowledgment of a completed upload.
pub fn upload_success_rsp(version: &str, upload_path: &str) -> (r: FileUploadRsp)
    ensures
        r.status@ == "success"@,
        r.message@ == "file uploaded to "@ + upload_path@ + " successfully."@,
        r.result@ == "none"@,
        r.version@ == version@,
{
    FileUploadRsp {
        status: String::from_str("success"),
        message: concat3("file uploaded to ", upload_path, " successfully."),
        result: String::from_str("none"),
        version: version.to_owned(),
    }
}

/// The user a file operation is checked for: the supplied one, or the
/// caller acting for itself.
pub open spec fn gate_user(user: Option<&str>) -> Seq<char> {
    match user {
        Some(u) => u@,
        None => "self"@,
    }
}

/// Ask the decision engine whether a file operation may go ahead: `Read`
/// covers listing and download, `Write` covers upload; the end-user is
/// `self` unless one came with the request, and the checked path is the
/// absolute path under the served root. Callers that do not enforce
/// per-file rules simply never call this.
pub fn check_file_operation(
    store: &AclStore,
    sub: &str,
    user: Option<&str>,
    action: &AclAction,
    abs_path: &str,
) -> (r: Result<AuthAnswer, ApiError>)
    ensures
        r is Ok <==> authz_decision(
            store@,
            sub@,
            gate_user(user),
            spec_normalize_path(abs_path@),
            action.spec_str(),
        ) is Ok,
        r matches Ok(ans) ==> Ok::<AuthAnswer, ()>(ans) == authz_decision(
            store@,
            sub@,
            gate_user(user),
            spec_normalize_path(abs_path@),
            action.spec_str(),
        ),
        r matches Err(e) ==> e.kind == ErrorKind::PolicyCheckError,
{
    let usr = match user {
        Some(u) => u.to_owned(),
        None => String::from_str("self"),
    };
    let check_path = normalize_path(abs_path);
    match is_authz_db(store, sub, usr.as_str(), check_path.as_str(), action) {
        Ok(answer) => Ok(answer),
        Err(e) => Err(policy_check_error(e)),
    }
}

} // verus!

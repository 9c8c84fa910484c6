//! A per-host trusted agent that mediates file operations under a
//! signed-request authorization regime: a caller presents an RS256 bearer
//! token, the agent extracts the caller's subject, and a local policy
//! store of ACL records decides whether the subject may act on a path on
//! behalf of an end-user — deny overrides allow, higher Allow actions
//! imply lower ones, lower Deny actions imply higher ones, and no matching
//! rule means no.

pub mod auth;
pub mod authz;
pub mod config;
pub mod files;
pub mod globmatch;
pub mod handlers;
pub mod models;
pub mod representations;
pub mod store;
pub mod strutil;

use vstd::prelude::*;

verus! {

/// The semantic version of the running agent, reported in every response
/// envelope.
pub open spec fn spec_version() -> Seq<char> {
    "0.1.0"@
}

/// Executable counterpart of [`spec_version`].
pub fn tagent_version() -> (v: String)
    ensures
        v@ == spec_version(),
{
    String::from_str("0.1.0")
}

} // verus!

//! Case-insensitive wildcard matching of ACL fields, through the `glob`
//! crate. `*` deliberately spans `/`, so a pattern over a directory covers
//! its whole subtree.

use vstd::prelude::*;

verus! {

/// `glob::PatternError`, returned by `glob::Pattern::new` on an ill-formed
/// pattern; opaque to the library and carried through unchanged.
#[verifier::external_type_specification]
#[verifier::external_body]
pub struct ExPatternError(glob::PatternError);

/// Whether `glob::Pattern::new` accepts `pattern`; acceptance depends on the
/// pattern characters alone.
pub uninterp spec fn glob_pattern_ok(pattern: Seq<char>) -> bool;

/// What `glob::Pattern::matches_with` answers for `pattern` against `text`
/// under this library's fixed options (case-insensitive; `*` spans `/`;
/// leading dots need not be literal); a function of the two strings alone.
pub uninterp spec fn glob_matches_ci(pattern: Seq<char>, text: Seq<char>) -> bool;

/// Whether an ACL field holding wildcard characters matches a field value.
///
/// Relies on `glob::Pattern::new`, which returns `Err` exactly on an
/// ill-formed pattern, and on `glob::Pattern::matches_with` with
/// `case_sensitive: false`, `require_literal_separator: false` and
/// `require_literal_leading_dot: false`, whose answer is a function of the
/// pattern and candidate strings alone.
#[verifier::external_body]
pub fn check_acl_glob_for_match(acl_field: &str, field: &str) -> (r: Result<
    bool,
    glob::PatternError,
>)
    ensures
        r is Ok <==> glob_pattern_ok(acl_field@),
        r matches Ok(m) ==> m == glob_matches_ci(acl_field@, field@),
{
    let options = glob::MatchOptions {
        case_sensitive: false,
        require_literal_separator: false,
        require_literal_leading_dot: false,
    };
    let gb = glob::Pattern::new(acl_field)?;
    Ok(gb.matches_with(field, options))
}

} // verus!

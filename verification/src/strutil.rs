//! Small verified helpers over `&str` and `String` that the rest of the
//! library builds its contracts on.

use vstd::prelude::*;
use vstd::string::*;

verus! {

/// Character-for-character equality of two string slices.
pub fn str_eq(a: &str, b: &str) -> (r: bool)
    ensures
        r == (a@ == b@),
{
    let a_len = a.unicode_len();
    let b_len = b.unicode_len();
    if a_len != b_len {
        return false;
    }
    let mut i: usize = 0;
    while i < a_len
        invariant
            i <= a_len,
            a_len == a@.len(),
            a_len == b@.len(),
            forall|j: int| 0 <= j < i ==> a@[j] == b@[j],
        decreases a_len - i,
    {
        if a.get_char(i) != b.get_char(i) {
            return false;
        }
        i = i + 1;
    }
    proof {
        assert(a@ =~= b@);
    }
    true
}

/// Whether a path string already carries the mandatory leading separator.
pub fn starts_with_slash(p: &str) -> (r: bool)
    ensures
        r == (p@.len() > 0 && p@[0] == '/'),
{
    if p.unicode_len() == 0 {
        false
    } else {
        p.get_char(0) == '/'
    }
}

/// Every path is persisted rooted: a missing leading `/` is prepended.
pub open spec fn spec_normalize_path(p: Seq<char>) -> Seq<char> {
    if p.len() > 0 && p[0] == '/' {
        p
    } else {
        "/"@ + p
    }
}

/// Executable counterpart of [`spec_normalize_path`].
pub fn normalize_path(p: &str) -> (r: String)
    ensures
        r@ == spec_normalize_path(p@),
        r@.len() > 0,
        r@[0] == '/',
{
    proof {
        reveal_strlit("/");
    }
    if starts_with_slash(p) {
        p.to_owned()
    } else {
        let rooted = String::from_str("/");
        rooted.concat(p)
    }
}

/// Concatenation of three pieces, used to assemble messages and joined paths.
pub fn concat3(a: &str, b: &str, c: &str) -> (r: String)
    ensures
        r@ == a@ + b@ + c@,
{
    let s = a.to_owned();
    let s = s.concat(b);
    s.concat(c)
}

} // verus!

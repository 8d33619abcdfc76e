use vstd::prelude::*;

use crate::error::Error;

verus! {

/// Relies on `which::which_in`: looks `name` up in the `PATH`-style list
/// `paths`, resolving relative names against `cwd`. What it finds depends on the
/// filesystem, so nothing is promised of the outcome; an error comes back as
/// the crate's own message.
#[verifier::external_body]
pub(crate) fn which_in(name: &str, paths: Option<&str>, cwd: &str) -> (r: Result<String, String>) {
    match which::which_in(name, paths, cwd) {
        Ok(p) => Ok(p.to_string_lossy().into_owned()),
        Err(e) => Err(e.to_string()),
    }
}

/// The Windows extended-length prefix `\\?\` that canonical paths may carry.
pub open spec fn has_extended_prefix(p: Seq<char>) -> bool {
    p.len() >= 4 && p[0] == '\\' && p[1] == '\\' && p[2] == '?' && p[3] == '\\'
}

/// `p` without the extended-length prefix, which many compiler front ends reject.
pub open spec fn without_extended_prefix(p: Seq<char>) -> Seq<char> {
    if has_extended_prefix(p) {
        p.subrange(4, p.len() as int)
    } else {
        p
    }
}

/// Strips the extended-length prefix `\\?\` from a canonical path; any other
/// path comes back unchanged. This never fails.
pub fn strip_extended_prefix(path: &str) -> (r: String)
    ensures
        r@ == without_extended_prefix(path@),
{
    let len = path.unicode_len();
    if len >= 4 && path.get_char(0) == '\\' && path.get_char(1) == '\\' && path.get_char(2) == '?'
        && path.get_char(3) == '\\' {
        String::from_str(path.substring_char(4, len))
    } else {
        String::from_str(path)
    }
}

/// The `ToolNotFound` error for `requested`, with the search path used and the reason.
pub fn not_found(requested: &str, search_path: Option<&str>, reason: String) -> (r: Error)
    ensures
        r matches Error::ToolNotFound { requested: q, search_path: sp, reason: why } && q@
            == requested@ && why@ == reason@ && match search_path {
            Some(s) => sp matches Some(t) && t@ == s@,
            None => sp is None,
        },
{
    Error::ToolNotFound {
        requested: String::from_str(requested),
        search_path: match search_path {
            Some(s) => Some(String::from_str(s)),
            None => None,
        },
        reason,
    }
}

/// Locates the executable `requested`: a name with a separator, or an absolute
/// path, is taken as it is (relative to `cwd`); a bare name is searched for in
/// each directory of `search_path` in order, the first match winning. A failed
/// lookup is `ToolNotFound` carrying the name, the search path and the reason.
pub fn locate_executable(requested: &str, search_path: Option<&str>, cwd: &str) -> (r: Result<
    String,
    Error,
>)
    ensures
        r matches Err(e) ==> e matches Error::ToolNotFound { requested: q, search_path: sp, .. }
            && q@ == requested@ && match search_path {
            Some(s) => sp matches Some(t) && t@ == s@,
            None => sp is None,
        },
{
    match which_in(requested, search_path, cwd) {
        Ok(p) => Ok(p),
        Err(why) => Err(not_found(requested, search_path, why)),
    }
}

} // verus!

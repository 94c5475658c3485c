//! The sandboxed execution gate.
//!
//! A candidate binary path is untrusted: for a reused binary it came from a
//! directory scan, for a fresh install it was derived from a version string a
//! remote registry supplied. Before anything is spawned, both the managed
//! install directory and the candidate are resolved to their canonical,
//! symlink-free absolute forms, and execution is refused unless the
//! canonical candidate lies inside the canonical root. Spawning itself is
//! plain process plumbing and happens outside this library, strictly after
//! this gate has passed.

use vstd::prelude::*;

use crate::errors::Error;
use crate::text::eq_str;

verus! {

/// The managed install directory, discovered once per process and passed
/// explicitly to whoever needs the trust boundary.
#[derive(Debug)]
pub struct InstallRoot {
    pub path: String,
}

/// A root with a trailing separator, ready for prefix comparison.
pub open spec fn with_sep(root: Seq<char>) -> Seq<char> {
    if root.len() > 0 && root.last() == '/' {
        root
    } else {
        root + seq!['/']
    }
}

/// Lexical containment of canonical paths: the path is the root itself, or
/// the root (with a separator) is a proper prefix of it.
pub open spec fn path_within_spec(path: Seq<char>, root: Seq<char>) -> bool {
    path == root || (path.len() >= with_sep(root).len() && path.subrange(
        0,
        with_sep(root).len() as int,
    ) == with_sep(root))
}

/// Whether one canonical path lies within another, lexically: equal to it,
/// or below it across a `/` component boundary.
pub fn path_within(path: &str, root: &str) -> (r: bool)
    ensures
        r == path_within_spec(path@, root@),
{
    if eq_str(path, root) {
        return true;
    }
    let plen = path.unicode_len();
    let rlen = root.unicode_len();
    let root_has_sep = rlen > 0 && root.get_char(rlen - 1) == '/';
    proof {
        reveal_strlit("/");
        if root_has_sep {
            assert(with_sep(root@) =~= root@);
        } else {
            assert(with_sep(root@) =~= root@ + seq!['/']);
        }
    }
    let need = if root_has_sep {
        rlen
    } else {
        if rlen == usize::MAX {
            proof {
                assert(path@.len() < with_sep(root@).len());
            }
            return false;
        }
        rlen + 1
    };
    if plen < need {
        return false;
    }
    let mut i: usize = 0;
    while i < rlen
        invariant
            i <= rlen,
            rlen == root@.len(),
            plen == path@.len(),
            plen >= need,
            need == with_sep(root@).len(),
            need >= rlen,
            forall|k: int| 0 <= k < i ==> path@[k] == root@[k],
        decreases rlen - i,
    {
        if path.get_char(i) != root.get_char(i) {
            proof {
                assert(path@.subrange(0, need as int)[i as int] != with_sep(root@)[i as int]);
            }
            return false;
        }
        i += 1;
    }
    if !root_has_sep {
        if path.get_char(rlen) != '/' {
            proof {
                reveal_strlit("/");
                assert(path@.subrange(0, need as int)[rlen as int] != with_sep(root@)[rlen as int]);
            }
            return false;
        }
    }
    proof {
        assert(path@.subrange(0, need as int) =~= with_sep(root@));
    }
    true
}

/// Relies on `std::path::Path::canonicalize`: it resolves symbolic links and
/// relative components against the filesystem and returns the canonical
/// absolute form of an existing path, or fails with an OS error. A result
/// that is not valid Unicode is treated as a failure; the error case
/// carries the cause's description.
#[verifier::external_body]
fn canonicalize_path(p: &str) -> (r: Result<String, String>) {
    match std::path::Path::new(p).canonicalize() {
        Ok(resolved) => match resolved.into_os_string().into_string() {
            Ok(text) => Ok(text),
            Err(_) => Err("canonical path is not valid unicode".to_owned()),
        },
        Err(err) => Err(err.to_string()),
    }
}

/// Refuse a canonical binary path that lies outside a canonical root.
///
/// Execution is allowed exactly for paths lexically contained in the root;
/// everything else is a `PathEscape`, the unconditional security error.
pub fn check_canonical_containment(canon_binary: &str, canon_root: &str) -> (r: Result<
    (),
    Error,
>)
    ensures
        r is Ok <==> path_within_spec(canon_binary@, canon_root@),
        r matches Err(e) ==> e matches Error::PathEscape { path } && path@ == canon_binary@,
{
    if path_within(canon_binary, canon_root) {
        Ok(())
    } else {
        Err(Error::PathEscape { path: canon_binary.to_owned() })
    }
}

/// A diagnostic naming the path that could not be canonicalized and the
/// underlying cause.
fn canonicalize_failure(what: &str, path: &str, cause: &String) -> (r: String)
    ensures
        r@ == what@ + path@ + ": "@ + cause@,
{
    let mut message = what.to_owned();
    message.append(path);
    message.append(": ");
    message.append(cause.as_str());
    message
}

/// Canonicalize a candidate binary path and an install directory, and refuse
/// execution unless the canonical binary lies within the canonical
/// directory.
///
/// Canonicalization consults the filesystem, so the containment that was
/// checked is over the canonical forms obtained here, not over the raw
/// arguments; [`check_canonical_containment`] carries the exact statement. A
/// path that cannot be canonicalized is an environmental fault
/// (`ExecutionFailed`), distinguished from the `PathEscape` refusal.
pub fn ensure_binary_within_dir(binary_path: &str, install_dir: &str) -> (r: Result<(), Error>)
    ensures
        r matches Err(e) ==> e matches Error::PathEscape { .. } || e matches Error::ExecutionFailed {
            ..
        },
{
    let canon_root = match canonicalize_path(install_dir) {
        Ok(p) => p,
        Err(cause) => {
            return Err(
                Error::ExecutionFailed {
                    message: canonicalize_failure("failed to canonicalize install directory ", install_dir, &cause),
                },
            );
        },
    };
    let canon_binary = match canonicalize_path(binary_path) {
        Ok(p) => p,
        Err(cause) => {
            return Err(
                Error::ExecutionFailed {
                    message: canonicalize_failure("failed to canonicalize binary path ", binary_path, &cause),
                },
            );
        },
    };
    check_canonical_containment(canon_binary.as_str(), canon_root.as_str())
}

/// The same gate, taking the managed root as the explicit trust boundary.
pub fn ensure_within_install_dir(binary_path: &str, root: &InstallRoot) -> (r: Result<(), Error>)
    ensures
        r matches Err(e) ==> e matches Error::PathEscape { .. } || e matches Error::ExecutionFailed {
            ..
        },
{
    ensure_binary_within_dir(binary_path, root.path.as_str())
}

} // verus!

//! The git operations' own decisions: the identity of commits and the
//! arguments of a push. The repository itself is handled by the
//! application.
use vstd::prelude::*;

use crate::execution::views;
use crate::text::{owned, push_str, string_from_chars};

verus! {

/// The name and e-mail that sign commits: the configured ones, or the
/// tool's fallbacks when git's configuration has none.
pub fn signature_identity(name: Option<String>, email: Option<String>) -> (r: (String, String))
    ensures
        r.0@ == match name {
            Some(n) => n@,
            None => "NCL User"@,
        },
        r.1@ == match email {
            Some(e) => e@,
            None => "ncl@example.com"@,
        },
{
    let n = match name {
        Some(n) => n,
        None => owned("NCL User"),
    };
    let e = match email {
        Some(e) => e,
        None => owned("ncl@example.com"),
    };
    (n, e)
}

/// The arguments of `git` that push a branch to a remote, setting the
/// upstream when asked.
pub fn push_args(remote_name: &str, branch_name: &str, set_upstream: bool) -> (r: Vec<String>)
    ensures
        views(r@) == seq!["push"@] + (if set_upstream {
            seq!["-u"@]
        } else {
            Seq::empty()
        }) + seq![remote_name@, branch_name@],
{
    let mut args: Vec<String> = Vec::new();
    args.push(owned("push"));
    if set_upstream {
        args.push(owned("-u"));
    }
    args.push(owned(remote_name));
    args.push(owned(branch_name));
    assert(views(args@) =~= seq!["push"@] + (if set_upstream {
        seq!["-u"@]
    } else {
        Seq::empty()
    }) + seq![remote_name@, branch_name@]);
    args
}

/// The upstream of a branch: `<remote>/<branch>`.
pub fn upstream_name(remote_name: &str, branch_name: &str) -> (r: String)
    ensures
        r@ == remote_name@ + "/"@ + branch_name@,
{
    let mut v: Vec<char> = Vec::new();
    push_str(&mut v, remote_name);
    push_str(&mut v, "/");
    push_str(&mut v, branch_name);
    string_from_chars(v.as_slice())
}

/// The reference of a local branch: `refs/heads/<branch>`.
pub fn branch_reference(branch_name: &str) -> (r: String)
    ensures
        r@ == "refs/heads/"@ + branch_name@,
{
    let mut v: Vec<char> = Vec::new();
    push_str(&mut v, "refs/heads/");
    push_str(&mut v, branch_name);
    string_from_chars(v.as_slice())
}

/// The permission bits given to the files of a new project so that their
/// owner and group can write them: `rw-rw-r--` for files, `rwxrwxr-x` for
/// directories, nothing for other entries.
pub fn writable_mode(is_file: bool, is_dir: bool) -> (r: Option<u32>)
    ensures
        is_file ==> r == Some(0o664u32),
        !is_file && is_dir ==> r == Some(0o775u32),
        !is_file && !is_dir ==> r is None,
{
    if is_file {
        Some(0o664)
    } else if is_dir {
        Some(0o775)
    } else {
        None
    }
}

} // verus!

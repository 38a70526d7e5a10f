//! Naming and path policy: the worktree path and the session name are pure
//! deterministic functions of a branch name, so every invocation can re-derive
//! them without any persisted mapping.

use vstd::prelude::*;
use crate::text::chars_of;
use crate::text::string_of;

verus! {

/// A branch name flattened for use in a session name: every path separator
/// replaced by a hyphen. Distinct branch names that differ only in the choice
/// of separator versus hyphen flatten to the same string; that collision is a
/// documented property of the policy, not avoided.
pub open spec fn flat_of(s: Seq<char>) -> Seq<char> {
    s.map_values(|c: char| if c == '/' { '-' } else { c })
}

/// The fixed prefix of every session name this system creates.
pub open spec fn session_prefix() -> Seq<char> {
    "wt-"@
}

/// The session name derived from a branch name.
pub open spec fn session_name_of(branch: Seq<char>) -> Seq<char> {
    session_prefix() + flat_of(branch)
}

/// The directory under the repository root that holds every worktree.
pub open spec fn worktree_dir() -> Seq<char> {
    ".worktrees"@
}

/// The base directory for worktrees, under the repository root.
pub open spec fn worktree_base_of(root: Seq<char>) -> Seq<char> {
    root + "/"@ + worktree_dir()
}

/// The worktree path derived from a branch name: hierarchical, separators in
/// the branch name becoming path separators.
pub open spec fn worktree_path_of(root: Seq<char>, branch: Seq<char>) -> Seq<char> {
    worktree_base_of(root) + "/"@ + branch
}

/// The session name for a branch: the fixed prefix, then the branch name with
/// every path separator replaced by a hyphen.
pub fn session_name(branch: &str) -> (r: String)
    ensures
        r@ == session_name_of(branch@),
{
    let mut out: Vec<char> = chars_of("wt-");
    let bs: Vec<char> = chars_of(branch);
    let mut i: usize = 0;
    proof {
        assert(out@ =~= session_prefix() + flat_of(bs@.take(0)));
    }
    while i < bs.len()
        invariant
            bs@ == branch@,
            i <= bs@.len(),
            out@ == session_prefix() + flat_of(bs@.take(i as int)),
        decreases bs@.len() - i,
    {
        let c = bs[i];
        if c == '/' {
            out.push('-');
        } else {
            out.push(c);
        }
        i = i + 1;
        proof {
            assert(out@ =~= session_prefix() + flat_of(bs@.take(i as int)));
        }
    }
    proof {
        assert(bs@.take(bs@.len() as int) =~= bs@);
    }
    string_of(&out)
}

/// The flattened form of a name, as a character vector.
pub fn flat_chars(v: &Vec<char>) -> (r: Vec<char>)
    ensures
        r@ == flat_of(v@),
{
    let mut r: Vec<char> = Vec::new();
    let mut i: usize = 0;
    while i < v.len()
        invariant
            i <= v@.len(),
            r@ == flat_of(v@.take(i as int)),
        decreases v@.len() - i,
    {
        let c = v[i];
        if c == '/' {
            r.push('-');
        } else {
            r.push(c);
        }
        i = i + 1;
        proof {
            assert(r@ =~= flat_of(v@.take(i as int)));
        }
    }
    proof {
        assert(v@.take(v@.len() as int) =~= v@);
    }
    r
}

/// The base directory for worktrees.
pub fn worktree_base(root: &str) -> (r: String)
    ensures
        r@ == worktree_base_of(root@),
{
    let mut s = String::from_str(root);
    s.append("/");
    s.append(".worktrees");
    proof {
        assert(s@ =~= worktree_base_of(root@));
    }
    s
}

/// The worktree path for a branch.
pub fn worktree_path(root: &str, branch: &str) -> (r: String)
    ensures
        r@ == worktree_path_of(root@, branch@),
{
    let mut s = worktree_base(root);
    s.append("/");
    s.append(branch);
    proof {
        assert(s@ =~= worktree_path_of(root@, branch@));
    }
    s
}

/// Law: two branch names get the same session name exactly when their
/// flattened forms agree. In particular the derivation is deterministic, and
/// names that differ only in separator versus hyphen collide.
pub proof fn lemma_session_name_collision(b1: Seq<char>, b2: Seq<char>)
    ensures
        session_name_of(b1) == session_name_of(b2) <==> flat_of(b1) == flat_of(b2),
{
    if session_name_of(b1) == session_name_of(b2) {
        assert(flat_of(b1) =~= session_name_of(b1).skip(session_prefix().len() as int));
        assert(flat_of(b2) =~= session_name_of(b2).skip(session_prefix().len() as int));
    }
}

} // verus!

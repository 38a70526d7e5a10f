//! The state observer's parsers. The unverified driver captures the output of
//! the tools' listing commands and hands the text here; these functions turn
//! it into the canonical records the reconciler works on. They are pure: they
//! read text and build values, nothing else.

use vstd::prelude::*;
use crate::text::{
    chars_eq, chars_from, chars_of, extend_chars, first_token, has_prefix, is_ws_char, lines_of,
    split_lines, string_of, trim, trim_chars, trim_left, take_until_ws,
};

verus! {

/// One worktree as the version-control tool reports it: its path, and the
/// branch checked out there, or none when the worktree is detached.
pub struct WorktreeInfo {
    pub path: String,
    pub branch: Option<String>,
}

/// The mathematical shape of a `WorktreeInfo`.
#[verifier::ext_equal]
pub struct WorktreeInfoView {
    pub path: Seq<char>,
    pub branch: Option<Seq<char>>,
}

impl View for WorktreeInfo {
    type V = WorktreeInfoView;

    open spec fn view(&self) -> WorktreeInfoView {
        WorktreeInfoView { path: self.path@, branch: self.branch.deep_view() }
    }
}

impl DeepView for WorktreeInfo {
    type V = WorktreeInfoView;

    open spec fn deep_view(&self) -> WorktreeInfoView {
        self.view()
    }
}

/// The line that introduces a new worktree record in the machine-readable
/// listing.
pub open spec fn worktree_line_prefix() -> Seq<char> {
    "worktree "@
}

/// The attribute line naming the branch of the current record.
pub open spec fn branch_line_prefix() -> Seq<char> {
    "branch "@
}

/// The prefix of a local branch ref, stripped before storage; refs of any
/// other shape are kept verbatim.
pub open spec fn local_ref_prefix() -> Seq<char> {
    "refs/heads/"@
}

pub open spec fn strip_branch_ref(r: Seq<char>) -> Seq<char> {
    if local_ref_prefix().is_prefix_of(r) {
        r.skip(local_ref_prefix().len() as int)
    } else {
        r
    }
}

/// Closes the record under construction: a record exists only once a line
/// introduced its path.
pub open spec fn wt_flush(
    path: Option<Seq<char>>,
    branch: Option<Seq<char>>,
    acc: Seq<WorktreeInfoView>,
) -> Seq<WorktreeInfoView> {
    match path {
        Some(p) => acc.push(WorktreeInfoView { path: p, branch }),
        None => acc,
    }
}

pub open spec fn wt_go(
    lines: Seq<Seq<char>>,
    path: Option<Seq<char>>,
    branch: Option<Seq<char>>,
    acc: Seq<WorktreeInfoView>,
) -> Seq<WorktreeInfoView>
    decreases lines.len(),
{
    if lines.len() == 0 {
        wt_flush(path, branch, acc)
    } else {
        let l = trim(lines[0]);
        if worktree_line_prefix().is_prefix_of(l) {
            wt_go(
                lines.drop_first(),
                Some(l.skip(worktree_line_prefix().len() as int)),
                None,
                wt_flush(path, branch, acc),
            )
        } else if branch_line_prefix().is_prefix_of(l) {
            wt_go(
                lines.drop_first(),
                path,
                Some(strip_branch_ref(l.skip(branch_line_prefix().len() as int))),
                acc,
            )
        } else {
            wt_go(lines.drop_first(), path, branch, acc)
        }
    }
}

/// The worktree records of the machine-readable listing: a line introducing a
/// path opens a record, attribute lines up to the next such line belong to
/// it, and a branch attribute is stored with its local-ref prefix stripped.
pub open spec fn parse_worktrees(out: Seq<char>) -> Seq<WorktreeInfoView> {
    wt_go(lines_of(out), None, None, Seq::empty())
}

pub open spec fn parse_sessions(lines: Seq<Seq<char>>) -> Seq<Seq<char>>
    decreases lines.len(),
{
    if lines.len() == 0 {
        Seq::empty()
    } else {
        let t = first_token(lines[0]);
        let rest = parse_sessions(lines.drop_first());
        if t.len() > 0 {
            seq![t] + rest
        } else {
            rest
        }
    }
}

/// The session names of the multiplexer's listing: the first
/// whitespace-delimited token of each line, blank lines skipped.
pub open spec fn sessions_of(out: Seq<char>) -> Seq<Seq<char>> {
    parse_sessions(lines_of(out))
}

/// Whether the listing has a record line for exactly this path.
pub open spec fn worktree_known_in(out: Seq<char>, path: Seq<char>) -> bool {
    exists|i: int|
        0 <= i < lines_of(out).len() && trim(lines_of(out)[i]) == worktree_line_prefix() + path
}

/// The repository root as the version-control tool printed it, surrounding
/// whitespace removed.
pub fn git_repo_root(out: &str) -> (r: String)
    ensures
        r@ == trim(out@),
{
    let cs = chars_of(out);
    let t = trim_chars(&cs);
    string_of(&t)
}

/// Whether the captured worktree listing registers the given path.
pub fn git_worktree_known(out: &str, worktree_path: &str) -> (r: bool)
    ensures
        r == worktree_known_in(out@, worktree_path@),
{
    let mut needle = chars_of("worktree ");
    let pcs = chars_of(worktree_path);
    extend_chars(&mut needle, &pcs);
    let lines = split_lines(out);
    let ghost linesd = lines.deep_view();
    let mut i: usize = 0;
    while i < lines.len()
        invariant
            linesd == lines.deep_view(),
            linesd == lines_of(out@),
            needle@ == worktree_line_prefix() + worktree_path@,
            i <= linesd.len(),
            forall|j: int| 0 <= j < i ==> trim(linesd[j]) != needle@,
        decreases linesd.len() - i,
    {
        proof {
            assert(linesd[i as int] =~= lines@[i as int]@);
        }
        let t = trim_chars(&lines[i]);
        if chars_eq(&t, &needle) {
            proof {
                assert(trim(lines_of(out@)[i as int]) == worktree_line_prefix()
                    + worktree_path@);
            }
            return true;
        }
        i = i + 1;
    }
    false
}

/// The worktree records parsed from the captured machine-readable listing.
pub fn list_worktrees(out: &str) -> (r: Vec<WorktreeInfo>)
    ensures
        r.deep_view() == parse_worktrees(out@),
{
    let wt_prefix = chars_of("worktree ");
    let br_prefix = chars_of("branch ");
    let ref_prefix = chars_of("refs/heads/");
    let lines = split_lines(out);
    let ghost linesd = lines.deep_view();
    let mut res: Vec<WorktreeInfo> = Vec::new();
    let mut cur_path: Option<Vec<char>> = None;
    let mut cur_branch: Option<Vec<char>> = None;
    let mut i: usize = 0;
    proof {
        assert(linesd.skip(0) =~~= linesd);
        assert(res.deep_view() =~~= Seq::<WorktreeInfoView>::empty());
    }
    while i < lines.len()
        invariant
            linesd == lines.deep_view(),
            linesd == lines_of(out@),
            wt_prefix@ == worktree_line_prefix(),
            br_prefix@ == branch_line_prefix(),
            ref_prefix@ == local_ref_prefix(),
            i <= linesd.len(),
            wt_go(
                linesd.skip(i as int),
                cur_path.deep_view(),
                cur_branch.deep_view(),
                res.deep_view(),
            ) == parse_worktrees(out@),
        decreases linesd.len() - i,
    {
        proof {
            assert(linesd[i as int] =~= lines@[i as int]@);
            assert(linesd.skip(i as int)[0] == linesd[i as int]);
            assert(linesd.skip(i as int).drop_first() =~~= linesd.skip(i as int + 1));
        }
        let ghost gpath = cur_path.deep_view();
        let ghost gbranch = cur_branch.deep_view();
        let ghost gline = trim(linesd[i as int]);
        let l = trim_chars(&lines[i]);
        let prev_path = cur_path;
        let prev_branch = cur_branch;
        if has_prefix(&l, &wt_prefix) {
            let rest = chars_from(&l, wt_prefix.len());
            proof {
                assert(rest.deep_view() =~= rest@);
            }
            cur_path = Some(rest);
            cur_branch = None;
            let ghost res0 = res.deep_view();
            match prev_path {
                Some(p) => {
                    let b = match prev_branch {
                        Some(bv) => Some(string_of(&bv)),
                        None => None,
                    };
                    proof {
                        assert(p.deep_view() =~= p@);
                        assert(b.deep_view() =~~= gbranch);
                    }
                    res.push(WorktreeInfo { path: string_of(&p), branch: b });
                },
                None => {},
            }
            proof {
                assert(res.deep_view() =~~= wt_flush(gpath, gbranch, res0));
                assert(cur_path.deep_view() =~~= Some(
                    gline.skip(worktree_line_prefix().len() as int),
                ));
            }
        } else if has_prefix(&l, &br_prefix) {
            let rest = chars_from(&l, br_prefix.len());
            let stripped = if has_prefix(&rest, &ref_prefix) {
                chars_from(&rest, ref_prefix.len())
            } else {
                rest
            };
            proof {
                assert(stripped.deep_view() =~= stripped@);
                assert(stripped@ == strip_branch_ref(gline.skip(branch_line_prefix().len() as int)));
            }
            cur_path = prev_path;
            cur_branch = Some(stripped);
        } else {
            cur_path = prev_path;
            cur_branch = prev_branch;
        }
        i = i + 1;
    }
    proof {
        assert(linesd.skip(linesd.len() as int) =~~= Seq::<Seq<char>>::empty());
    }
    let ghost gpath = cur_path.deep_view();
    let ghost gbranch = cur_branch.deep_view();
    let ghost res0 = res.deep_view();
    match cur_path {
        Some(p) => {
            let b = match cur_branch {
                Some(bv) => Some(string_of(&bv)),
                None => None,
            };
            proof {
                assert(p.deep_view() =~= p@);
                assert(b.deep_view() =~~= gbranch);
            }
            res.push(WorktreeInfo { path: string_of(&p), branch: b });
        },
        None => {},
    }
    proof {
        assert(res.deep_view() =~~= wt_flush(gpath, gbranch, res0));
    }
    res
}

/// The first whitespace-delimited token of a line, empty when there is none.
fn first_token_chars(l: &Vec<char>) -> (r: Vec<char>)
    ensures
        r@ == first_token(l@),
{
    let mut j: usize = 0;
    proof {
        assert(l@.skip(0) =~= l@);
    }
    while j < l.len() && is_ws_char(l[j])
        invariant
            j <= l@.len(),
            trim_left(l@.skip(j as int)) == trim_left(l@),
        decreases l@.len() - j,
    {
        proof {
            assert(l@.skip(j as int).drop_first() =~= l@.skip(j as int + 1));
        }
        j = j + 1;
    }
    proof {
        let s0: Seq<char> = l@.skip(j as int);
        if j < l@.len() {
            assert(s0[0] == l@[j as int]);
        }
        assert(trim_left(s0) == s0);
        assert(trim_left(l@) == s0);
    }
    let mut r: Vec<char> = Vec::new();
    let mut k: usize = j;
    while k < l.len() && !is_ws_char(l[k])
        invariant
            j <= k <= l@.len(),
            trim_left(l@) == l@.skip(j as int),
            r@ + take_until_ws(l@.skip(k as int)) == take_until_ws(l@.skip(j as int)),
        decreases l@.len() - k,
    {
        proof {
            assert(l@.skip(k as int)[0] == l@[k as int]);
            assert(l@.skip(k as int).drop_first() =~= l@.skip(k as int + 1));
        }
        let ghost r0 = r@;
        r.push(l[k]);
        k = k + 1;
        proof {
            assert(r0 + (seq![l@[k as int - 1]] + take_until_ws(l@.skip(k as int))) =~= r@
                + take_until_ws(l@.skip(k as int)));
        }
    }
    proof {
        let sk: Seq<char> = l@.skip(k as int);
        if k < l@.len() {
            assert(sk[0] == l@[k as int]);
        }
        assert(take_until_ws(sk) =~= Seq::<char>::empty());
        assert(r@ + take_until_ws(sk) =~= r@);
    }
    r
}

/// The session names parsed from the captured multiplexer listing. The driver
/// calls this only when the listing command succeeded; a failed listing is
/// treated as an empty result set, the multiplexer simply not running yet.
pub fn list_zellij_sessions(out: &str) -> (r: Vec<String>)
    ensures
        r.deep_view() == sessions_of(out@),
{
    let lines = split_lines(out);
    let ghost linesd = lines.deep_view();
    let mut res: Vec<String> = Vec::new();
    let mut i: usize = 0;
    proof {
        assert(linesd.skip(0) =~~= linesd);
        assert(res.deep_view() + parse_sessions(linesd) =~~= parse_sessions(linesd));
    }
    while i < lines.len()
        invariant
            linesd == lines.deep_view(),
            linesd == lines_of(out@),
            i <= linesd.len(),
            res.deep_view() + parse_sessions(linesd.skip(i as int)) == sessions_of(out@),
        decreases linesd.len() - i,
    {
        proof {
            assert(linesd[i as int] =~= lines@[i as int]@);
            assert(linesd.skip(i as int)[0] == linesd[i as int]);
            assert(linesd.skip(i as int).drop_first() =~~= linesd.skip(i as int + 1));
        }
        let ghost res0 = res.deep_view();
        let t = first_token_chars(&lines[i]);
        if t.len() > 0 {
            res.push(string_of(&t));
            proof {
                assert(res.deep_view() =~~= res0.push(first_token(linesd[i as int])));
                assert(res0.push(first_token(linesd[i as int])) + parse_sessions(
                    linesd.skip(i as int + 1),
                ) =~~= res0 + (seq![first_token(linesd[i as int])] + parse_sessions(
                    linesd.skip(i as int + 1),
                )));
            }
        }
        i = i + 1;
    }
    proof {
        assert(linesd.skip(linesd.len() as int) =~~= Seq::<Seq<char>>::empty());
        assert(res.deep_view() + parse_sessions(linesd.skip(linesd.len() as int)) =~~=
            res.deep_view());
    }
    res
}

} // verus!

//! The list operation: rendering the observed worktrees and sessions, and the
//! conservative stale-session sweep. A session is swept only when it carries
//! this system's prefix and no currently-observed worktree's derived
//! flat-name fragment matches its suffix; sessions without the prefix were
//! not created here and are never touched.

use vstd::prelude::*;
use crate::actions::{Action, ActionView, Step, StepView, best_effort, mandatory};
use crate::naming::{flat_chars, flat_of, session_name_of, session_prefix, worktree_base_of, worktree_path_of};
use crate::observe::{WorktreeInfo, WorktreeInfoView};
use crate::text::{chars_from, chars_of, chars_eq, extend_chars, has_prefix, string_of};

verus! {

/// The flat-name fragment a worktree derives: its path relative to the
/// worktree base, flattened. A worktree outside the base derives none.
pub open spec fn wt_fragment(path: Seq<char>, base: Seq<char>) -> Option<Seq<char>> {
    let under = base + "/"@;
    if under.is_prefix_of(path) {
        Some(flat_of(path.skip(under.len() as int)))
    } else {
        None
    }
}

/// Whether the session has this system's prefix and no observed worktree
/// accounts for it.
pub open spec fn session_is_stale(
    s: Seq<char>,
    worktrees: Seq<WorktreeInfoView>,
    base: Seq<char>,
) -> bool {
    &&& session_prefix().is_prefix_of(s)
    &&& !(exists|j: int|
        0 <= j < worktrees.len() && wt_fragment(worktrees[j].path, base) == Some(
            s.skip(session_prefix().len() as int),
        ))
}

/// The sessions the sweep selects, in the order they were observed.
pub open spec fn stale_sessions(
    sessions: Seq<Seq<char>>,
    worktrees: Seq<WorktreeInfoView>,
    base: Seq<char>,
) -> Seq<Seq<char>> {
    sessions.filter(|s: Seq<char>| session_is_stale(s, worktrees, base))
}

/// The sweep's plan: one best-effort session deletion per stale session.
pub open spec fn prune_plan(
    sessions: Seq<Seq<char>>,
    worktrees: Seq<WorktreeInfoView>,
    base: Seq<char>,
) -> Seq<StepView> {
    stale_sessions(sessions, worktrees, base).map_values(
        |s: Seq<char>| best_effort(ActionView::SessionDelete { session: s }),
    )
}

/// The deletions of the stale-session sweep, given the observed session
/// names, the observed worktrees, and the worktree base directory.
pub fn prune_stale_sessions(
    sessions: &Vec<String>,
    worktrees: &Vec<WorktreeInfo>,
    base: &str,
) -> (r: Vec<Step>)
    ensures
        r.deep_view() == prune_plan(sessions.deep_view(), worktrees.deep_view(), base@),
{
    let ghost sessionsd = sessions.deep_view();
    let ghost wtsd = worktrees.deep_view();
    let prefix = chars_of("wt-");
    let mut under = chars_of(base);
    let sep = chars_of("/");
    extend_chars(&mut under, &sep);
    let mut r: Vec<Step> = Vec::new();
    let mut i: usize = 0;
    proof {
        reveal(Seq::filter);
        assert(sessionsd.take(0) =~~= Seq::<Seq<char>>::empty());
        assert(r.deep_view() =~~= prune_plan(sessionsd.take(0), wtsd, base@));
    }
    while i < sessions.len()
        invariant
            sessionsd == sessions.deep_view(),
            wtsd == worktrees.deep_view(),
            prefix@ == session_prefix(),
            under@ == base@ + "/"@,
            i <= sessionsd.len(),
            r.deep_view() == prune_plan(sessionsd.take(i as int), wtsd, base@),
        decreases sessionsd.len() - i,
    {
        let scs = chars_of(sessions[i].as_str());
        proof {
            assert(sessionsd[i as int] == sessions@[i as int]@);
            assert(scs@ == sessionsd[i as int]);
        }
        let mut stale: bool = false;
        if has_prefix(&scs, &prefix) {
            let suffix = chars_from(&scs, prefix.len());
            let mut matched: bool = false;
            let mut j: usize = 0;
            while j < worktrees.len()
                invariant
                    wtsd == worktrees.deep_view(),
                    under@ == base@ + "/"@,
                    suffix@ == sessionsd[i as int].skip(session_prefix().len() as int),
                    i < sessionsd.len(),
                    sessionsd == sessions.deep_view(),
                    j <= wtsd.len(),
                    matched <==> (exists|k: int|
                        0 <= k < j && wt_fragment(wtsd[k].path, base@) == Some(suffix@)),
                decreases wtsd.len() - j,
            {
                let pcs = chars_of(worktrees[j].path.as_str());
                proof {
                    assert(wtsd[j as int].path == worktrees@[j as int].path@);
                }
                if has_prefix(&pcs, &under) {
                    let rel = chars_from(&pcs, under.len());
                    let f = flat_chars(&rel);
                    if chars_eq(&f, &suffix) {
                        matched = true;
                        proof {
                            assert(wt_fragment(wtsd[j as int].path, base@) == Some(suffix@));
                        }
                    }
                }
                j = j + 1;
            }
            stale = !matched;
        }
        proof {
            assert(stale == session_is_stale(sessionsd[i as int], wtsd, base@));
        }
        let ghost r0 = r.deep_view();
        if stale {
            r.push(Step { action: Action::SessionDelete { session: string_of(&scs) }, best_effort: true });
        }
        i = i + 1;
        proof {
            reveal(Seq::filter);
            let t1: Seq<Seq<char>> = sessionsd.take(i as int);
            assert(t1.drop_last() =~~= sessionsd.take(i as int - 1));
            assert(t1.last() == sessionsd[i as int - 1]);
            if stale {
                assert(stale_sessions(t1, wtsd, base@) == stale_sessions(
                    sessionsd.take(i as int - 1),
                    wtsd,
                    base@,
                ).push(sessionsd[i as int - 1]));
                assert(prune_plan(t1, wtsd, base@) =~~= prune_plan(
                    sessionsd.take(i as int - 1),
                    wtsd,
                    base@,
                ).push(best_effort(ActionView::SessionDelete { session: sessionsd[i as int - 1] })));
                assert(r.deep_view() =~~= r0.push(
                    best_effort(ActionView::SessionDelete { session: sessionsd[i as int - 1] }),
                ));
                assert(r.deep_view() =~~= prune_plan(t1, wtsd, base@));
            } else {
                assert(stale_sessions(t1, wtsd, base@) == stale_sessions(
                    sessionsd.take(i as int - 1),
                    wtsd,
                    base@,
                ));
                assert(r.deep_view() =~~= prune_plan(t1, wtsd, base@));
            }
        }
    }
    proof {
        assert(sessionsd.take(sessionsd.len() as int) =~~= sessionsd);
    }
    r
}

/// Law: the sweep selects only sessions that carry the prefix and have no
/// observed worktree whose derived fragment matches.
pub proof fn lemma_prune_selects_only_stale(
    sessions: Seq<Seq<char>>,
    worktrees: Seq<WorktreeInfoView>,
    base: Seq<char>,
    i: int,
)
    requires
        0 <= i < stale_sessions(sessions, worktrees, base).len(),
    ensures
        session_is_stale(stale_sessions(sessions, worktrees, base)[i], worktrees, base),
        sessions.contains(stale_sessions(sessions, worktrees, base)[i]),
{
    let pred = |s: Seq<char>| session_is_stale(s, worktrees, base);
    sessions.lemma_filter_pred(pred, i);
    lemma_filter_members(sessions, pred, i);
}

proof fn lemma_filter_members<A>(s: Seq<A>, pred: spec_fn(A) -> bool, i: int)
    requires
        0 <= i < s.filter(pred).len(),
    ensures
        s.contains(s.filter(pred)[i]),
    decreases s.len(),
{
    reveal(Seq::filter);
    if s.len() > 0 {
        let sub = s.drop_last().filter(pred);
        if pred(s.last()) && i == sub.len() {
            assert(s.filter(pred)[i] == s.last());
            assert(s.contains(s.last()));
        } else {
            lemma_filter_members(s.drop_last(), pred, i);
            let x = s.drop_last().filter(pred)[i];
            let k = choose|k: int| 0 <= k < s.drop_last().len() && s.drop_last()[k] == x;
            assert(s[k] == x);
        }
    }
}

/// Law: the sweep never selects the session derived from a branch whose
/// worktree is still observed at the derived path — absence of a matching
/// worktree is the only deletion trigger.
pub proof fn lemma_prune_never_deletes_backed(
    sessions: Seq<Seq<char>>,
    worktrees: Seq<WorktreeInfoView>,
    root: Seq<char>,
    branch: Seq<char>,
)
    requires
        exists|j: int|
            0 <= j < worktrees.len() && worktrees[j].path == worktree_path_of(root, branch),
    ensures
        !stale_sessions(sessions, worktrees, worktree_base_of(root)).contains(
            session_name_of(branch),
        ),
{
    let base = worktree_base_of(root);
    let under = base + "/"@;
    let sn = session_name_of(branch);
    if stale_sessions(sessions, worktrees, base).contains(sn) {
        let i = choose|i: int|
            0 <= i < stale_sessions(sessions, worktrees, base).len() && stale_sessions(
                sessions,
                worktrees,
                base,
            )[i] == sn;
        lemma_prune_selects_only_stale(sessions, worktrees, base, i);
        assert(session_is_stale(sn, worktrees, base));
        let j = choose|j: int|
            0 <= j < worktrees.len() && worktrees[j].path == worktree_path_of(root, branch);
        assert(under =~= worktrees[j].path.take(under.len() as int));
        assert(under.is_prefix_of(worktrees[j].path));
        assert(worktrees[j].path.skip(under.len() as int) =~= branch);
        assert(wt_fragment(worktrees[j].path, base) == Some(flat_of(branch)));
        assert(sn.skip(session_prefix().len() as int) =~= flat_of(branch));
        assert(false);
    }
}

/// One rendered worktree line of the listing.
pub open spec fn wt_line(w: WorktreeInfoView) -> Seq<char> {
    "  - "@ + w.path + "  ("@ + (match w.branch {
        Some(b) => b,
        None => "<detached>"@,
    }) + ")\n"@
}

pub open spec fn wt_lines(ws: Seq<WorktreeInfoView>) -> Seq<char>
    decreases ws.len(),
{
    if ws.len() == 0 {
        Seq::empty()
    } else {
        wt_line(ws[0]) + wt_lines(ws.drop_first())
    }
}

/// One rendered session line of the listing.
pub open spec fn session_line(s: Seq<char>) -> Seq<char> {
    "  - "@ + s + "\n"@
}

pub open spec fn session_lines(ss: Seq<Seq<char>>) -> Seq<char>
    decreases ss.len(),
{
    if ss.len() == 0 {
        Seq::empty()
    } else {
        session_line(ss[0]) + session_lines(ss.drop_first())
    }
}

/// The whole report of the list operation.
pub open spec fn ls_report(ws: Seq<WorktreeInfoView>, ss: Seq<Seq<char>>) -> Seq<char> {
    "Worktrees:\n"@ + wt_lines(ws) + "\nZellij sessions:\n"@ + session_lines(ss)
}

/// The registry prune that the list operation optionally runs before
/// observing anything.
pub fn ls_prepare(prune_worktrees: bool) -> (r: Vec<Step>)
    ensures
        r.deep_view() == if prune_worktrees {
            seq![mandatory(ActionView::WorktreePrune)]
        } else {
            Seq::<StepView>::empty()
        },
{
    let mut r: Vec<Step> = Vec::new();
    if prune_worktrees {
        r.push(Step { action: Action::WorktreePrune, best_effort: false });
    }
    proof {
        if prune_worktrees {
            assert(r.deep_view() =~~= seq![mandatory(ActionView::WorktreePrune)]);
        } else {
            assert(r.deep_view() =~~= Seq::<StepView>::empty());
        }
    }
    r
}

/// The list operation, after observation: the rendered report, and the
/// stale-session sweep's deletions when the sweep was requested. `base` is
/// the worktree base directory the fragments are derived against.
pub fn ls(
    prune_sessions: bool,
    worktrees: &Vec<WorktreeInfo>,
    sessions: &Vec<String>,
    base: &str,
) -> (r: (String, Vec<Step>))
    ensures
        r.0@ == ls_report(worktrees.deep_view(), sessions.deep_view()),
        r.1.deep_view() == if prune_sessions {
            prune_plan(sessions.deep_view(), worktrees.deep_view(), base@)
        } else {
            Seq::<StepView>::empty()
        },
{
    let ghost wsd = worktrees.deep_view();
    let ghost ssd = sessions.deep_view();
    let mut report = String::from_str("Worktrees:\n");
    let mut i: usize = 0;
    proof {
        assert(wsd.skip(0) =~~= wsd);
    }
    while i < worktrees.len()
        invariant
            wsd == worktrees.deep_view(),
            i <= wsd.len(),
            report@ + wt_lines(wsd.skip(i as int)) == "Worktrees:\n"@ + wt_lines(wsd),
        decreases wsd.len() - i,
    {
        proof {
            assert(wsd.skip(i as int)[0] == wsd[i as int]);
            assert(wsd.skip(i as int).drop_first() =~~= wsd.skip(i as int + 1));
        }
        let ghost rep0 = report@;
        let w = &worktrees[i];
        report.append("  - ");
        report.append(w.path.as_str());
        report.append("  (");
        match &w.branch {
            Some(b) => {
                report.append(b.as_str());
            },
            None => {
                report.append("<detached>");
            },
        }
        report.append(")\n");
        i = i + 1;
        proof {
            assert(report@ =~= rep0 + wt_line(wsd[i as int - 1]));
            assert(rep0 + (wt_line(wsd[i as int - 1]) + wt_lines(wsd.skip(i as int))) =~= (rep0
                + wt_line(wsd[i as int - 1])) + wt_lines(wsd.skip(i as int)));
        }
    }
    proof {
        assert(wsd.skip(wsd.len() as int) =~~= Seq::<WorktreeInfoView>::empty());
        assert(report@ + wt_lines(wsd.skip(wsd.len() as int)) =~= report@);
    }
    report.append("\nZellij sessions:\n");
    let ghost mid = report@;
    proof {
        assert(mid =~= "Worktrees:\n"@ + wt_lines(wsd) + "\nZellij sessions:\n"@);
        assert(ssd.skip(0) =~~= ssd);
    }
    let mut k: usize = 0;
    while k < sessions.len()
        invariant
            ssd == sessions.deep_view(),
            k <= ssd.len(),
            report@ + session_lines(ssd.skip(k as int)) == mid + session_lines(ssd),
        decreases ssd.len() - k,
    {
        proof {
            assert(ssd[k as int] == sessions@[k as int]@);
            assert(ssd.skip(k as int)[0] == ssd[k as int]);
            assert(ssd.skip(k as int).drop_first() =~~= ssd.skip(k as int + 1));
        }
        let ghost rep0 = report@;
        report.append("  - ");
        report.append(sessions[k].as_str());
        report.append("\n");
        k = k + 1;
        proof {
            assert(report@ =~= rep0 + session_line(ssd[k as int - 1]));
            assert(rep0 + (session_line(ssd[k as int - 1]) + session_lines(ssd.skip(k as int)))
                =~= (rep0 + session_line(ssd[k as int - 1])) + session_lines(ssd.skip(k as int)));
        }
    }
    proof {
        assert(ssd.skip(ssd.len() as int) =~~= Seq::<Seq<char>>::empty());
        assert(report@ + session_lines(ssd.skip(ssd.len() as int)) =~= report@);
        assert(report@ =~= ls_report(wsd, ssd));
    }
    let steps = if prune_sessions {
        prune_stale_sessions(sessions, worktrees, base)
    } else {
        Vec::new()
    };
    proof {
        if !prune_sessions {
            assert(steps.deep_view() =~~= Seq::<StepView>::empty());
        }
    }
    (report, steps)
}

} // verus!

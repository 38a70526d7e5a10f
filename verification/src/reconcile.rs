//! The reconciler's per-step planners. Each one takes the facts the observer
//! gathered and returns the ordered plan of tool invocations that brings that
//! part of the system to its target state; the plans are exact, down to which
//! steps are best-effort.

use vstd::prelude::*;
use crate::actions::{Action, ActionView, Step, StepView, best_effort, mandatory};
use crate::naming::{session_name, session_name_of, worktree_path, worktree_path_of};

verus! {

/// The plan that makes the branch exist locally: nothing when it already
/// does; a fetch from the remote when only the remote has it; a fresh branch
/// from the current head when neither side has it.
pub open spec fn ensure_branch_plan(branch: Seq<char>, local: bool, remote: bool) -> Seq<
    StepView,
> {
    if local {
        Seq::empty()
    } else if remote {
        seq![mandatory(ActionView::FetchBranch { branch })]
    } else {
        seq![mandatory(ActionView::CreateBranch { branch })]
    }
}

/// The diagnostic for a worktree path that exists but is not a directory.
pub open spec fn obstructed_msg(path: Seq<char>) -> Seq<char> {
    "Worktree path exists but is not a directory: "@ + path
}

/// The error, if any, of the worktree-ensure step: the derived path is
/// obstructed by something that is not a directory.
pub open spec fn ensure_worktree_error(path: Seq<char>, registered: bool, is_dir: bool, exists: bool) -> Option<Seq<char>> {
    if registered && is_dir {
        None
    } else if exists && !is_dir {
        Some(obstructed_msg(path))
    } else {
        None
    }
}

/// The plan of the worktree-ensure step. When the worktree is both registered
/// and materialised on disk it is reused and the plan is empty. When neither
/// a registration nor anything on disk exists, a fresh worktree is added
/// directly. A disagreement between the two facts is a stale state: the
/// registry is pruned, a lingering registration without a directory is
/// forcibly removed (best-effort), and a fresh worktree is added. An
/// obstructed path stops the step after the prune.
pub open spec fn ensure_worktree_plan(path: Seq<char>, branch: Seq<char>, registered: bool, is_dir: bool, exists: bool) -> Seq<StepView> {
    if registered && is_dir {
        Seq::empty()
    } else if exists && !is_dir {
        seq![mandatory(ActionView::WorktreePrune)]
    } else if registered {
        seq![
            mandatory(ActionView::WorktreePrune),
            best_effort(ActionView::WorktreeRemove { path }),
            mandatory(ActionView::WorktreeAdd { path, branch }),
        ]
    } else if is_dir {
        seq![
            mandatory(ActionView::WorktreePrune),
            mandatory(ActionView::WorktreeAdd { path, branch }),
        ]
    } else {
        seq![mandatory(ActionView::WorktreeAdd { path, branch })]
    }
}

/// The plan that removes a worktree: a registry prune when the directory is
/// already gone, else a forced removal.
pub open spec fn remove_worktree_plan(path: Seq<char>, exists: bool) -> Seq<StepView> {
    if !exists {
        seq![mandatory(ActionView::WorktreePrune)]
    } else {
        seq![mandatory(ActionView::WorktreeRemove { path })]
    }
}

/// The same plan with every step downgraded to best-effort, for cleanup
/// chains whose failures are reported but never abort the siblings.
pub open spec fn as_best_effort(p: Seq<StepView>) -> Seq<StepView> {
    p.map_values(|s: StepView| StepView { action: s.action, best_effort: true })
}

/// The plan of the remove operation: best-effort session delete first (a live
/// session holding the directory must go before the filesystem is touched),
/// then mandatory worktree removal, then, only if asked, mandatory branch
/// deletion.
pub open spec fn rm_plan(root: Seq<char>, branch: Seq<char>, delete_branch: bool, worktree_exists: bool) -> Seq<StepView> {
    seq![best_effort(ActionView::SessionDelete { session: session_name_of(branch) })]
        + remove_worktree_plan(worktree_path_of(root, branch), worktree_exists) + (
    if delete_branch {
        seq![mandatory(ActionView::DeleteBranch { branch })]
    } else {
        Seq::empty()
    })
}

/// The ephemeral cleanup after the foreground session has exited: session
/// delete, worktree removal, and, if asked, branch deletion — every one of
/// them best-effort, so a failure never stops the remaining cleanup.
pub open spec fn cleanup_plan(root: Seq<char>, branch: Seq<char>, delete_branch: bool, worktree_exists: bool) -> Seq<StepView> {
    seq![best_effort(ActionView::SessionDelete { session: session_name_of(branch) })]
        + as_best_effort(remove_worktree_plan(worktree_path_of(root, branch), worktree_exists)) + (
    if delete_branch {
        seq![best_effort(ActionView::DeleteBranch { branch })]
    } else {
        Seq::empty()
    })
}

/// The named layout a fresh multiplexer server starts with.
pub open spec fn session_layout() -> Seq<char> {
    "worktree"@
}

/// The launch step: attach (creating if absent) when the multiplexer server
/// is already reachable, else start a fresh foreground server with the named
/// layout.
pub open spec fn launch_step_of(cwd: Seq<char>, session: Seq<char>, server_running: bool) -> StepView {
    if server_running {
        mandatory(ActionView::SessionAttach { session, cwd })
    } else {
        mandatory(ActionView::SessionStart { session, cwd, layout: session_layout() })
    }
}

/// The diagnostic for a foreground session that exited unsuccessfully.
pub open spec fn session_failed_msg() -> Seq<char> {
    "Zellij exited with non-zero status"@
}

/// The plan that makes the branch exist locally, from the observed facts:
/// whether it exists locally and whether the remote has it.
pub fn ensure_branch_exists(branch: &str, local_exists: bool, remote_exists: bool) -> (r: Vec<
    Step,
>)
    ensures
        r.deep_view() == ensure_branch_plan(branch@, local_exists, remote_exists),
{
    let mut r: Vec<Step> = Vec::new();
    if local_exists {
    } else if remote_exists {
        r.push(
            Step { action: Action::FetchBranch { branch: String::from_str(branch) }, best_effort: false },
        );
    } else {
        r.push(
            Step {
                action: Action::CreateBranch { branch: String::from_str(branch) },
                best_effort: false,
            },
        );
    }
    proof {
        assert(r.deep_view() =~= ensure_branch_plan(branch@, local_exists, remote_exists));
    }
    r
}

/// The worktree-ensure step: the plan, and the diagnostic when the derived
/// path is obstructed. `registered` and `is_dir` are the two independently
/// observed facts; `exists` says whether anything at all is at the path.
pub fn ensure_worktree(path: &str, branch: &str, registered: bool, is_dir: bool, exists: bool) -> (r: (Vec<Step>, Option<String>))
    ensures
        r.0.deep_view() == ensure_worktree_plan(path@, branch@, registered, is_dir, exists),
        r.1.deep_view() == ensure_worktree_error(path@, registered, is_dir, exists),
{
    let mut steps: Vec<Step> = Vec::new();
    let mut error: Option<String> = None;
    if registered && is_dir {
    } else if exists && !is_dir {
        steps.push(Step { action: Action::WorktreePrune, best_effort: false });
        let mut m = String::from_str("Worktree path exists but is not a directory: ");
        m.append(path);
        error = Some(m);
    } else if registered {
        steps.push(Step { action: Action::WorktreePrune, best_effort: false });
        steps.push(
            Step {
                action: Action::WorktreeRemove { path: String::from_str(path) },
                best_effort: true,
            },
        );
        steps.push(
            Step {
                action: Action::WorktreeAdd {
                    path: String::from_str(path),
                    branch: String::from_str(branch),
                },
                best_effort: false,
            },
        );
    } else if is_dir {
        steps.push(Step { action: Action::WorktreePrune, best_effort: false });
        steps.push(
            Step {
                action: Action::WorktreeAdd {
                    path: String::from_str(path),
                    branch: String::from_str(branch),
                },
                best_effort: false,
            },
        );
    } else {
        steps.push(
            Step {
                action: Action::WorktreeAdd {
                    path: String::from_str(path),
                    branch: String::from_str(branch),
                },
                best_effort: false,
            },
        );
    }
    proof {
        assert(steps.deep_view() =~= ensure_worktree_plan(path@, branch@, registered, is_dir, exists));
    }
    (steps, error)
}

/// The plan that removes the worktree at the path, given whether anything is
/// still on disk there.
pub fn remove_worktree(path: &str, exists: bool) -> (r: Vec<Step>)
    ensures
        r.deep_view() == remove_worktree_plan(path@, exists),
{
    let mut r: Vec<Step> = Vec::new();
    if !exists {
        r.push(Step { action: Action::WorktreePrune, best_effort: false });
    } else {
        r.push(
            Step {
                action: Action::WorktreeRemove { path: String::from_str(path) },
                best_effort: false,
            },
        );
    }
    proof {
        assert(r.deep_view() =~= remove_worktree_plan(path@, exists));
    }
    r
}

/// The single mandatory step that deletes the local branch.
pub fn delete_local_branch(branch: &str) -> (r: Step)
    ensures
        r@ == mandatory(ActionView::DeleteBranch { branch: branch@ }),
{
    Step { action: Action::DeleteBranch { branch: String::from_str(branch) }, best_effort: false }
}

/// The plan of the remove operation for a branch.
pub fn rm_branch(branch: &str, delete_branch_flag: bool, root: &str, worktree_exists: bool) -> (r: Vec<Step>)
    ensures
        r.deep_view() == rm_plan(root@, branch@, delete_branch_flag, worktree_exists),
{
    let mut r: Vec<Step> = Vec::new();
    r.push(Step { action: Action::SessionDelete { session: session_name(branch) }, best_effort: true });
    let path = worktree_path(root, branch);
    let mut rest = remove_worktree(path.as_str(), worktree_exists);
    r.append(&mut rest);
    if delete_branch_flag {
        r.push(delete_local_branch(branch));
    }
    proof {
        assert(r.deep_view() =~= rm_plan(root@, branch@, delete_branch_flag, worktree_exists));
    }
    r
}

/// The ephemeral cleanup plan for a branch, run after the foreground session
/// has exited.
pub fn ephemeral_cleanup(branch: &str, delete_branch_flag: bool, root: &str, worktree_exists: bool) -> (r: Vec<Step>)
    ensures
        r.deep_view() == cleanup_plan(root@, branch@, delete_branch_flag, worktree_exists),
{
    let mut r: Vec<Step> = Vec::new();
    r.push(Step { action: Action::SessionDelete { session: session_name(branch) }, best_effort: true });
    let path = worktree_path(root, branch);
    if !worktree_exists {
        r.push(Step { action: Action::WorktreePrune, best_effort: true });
    } else {
        r.push(Step { action: Action::WorktreeRemove { path }, best_effort: true });
    }
    if delete_branch_flag {
        r.push(
            Step { action: Action::DeleteBranch { branch: String::from_str(branch) }, best_effort: true },
        );
    }
    proof {
        assert(r.deep_view() =~= cleanup_plan(root@, branch@, delete_branch_flag, worktree_exists));
    }
    r
}

/// The launch step for the derived session in the worktree directory, given
/// whether the multiplexer server answered a listing call.
pub fn launch_zellij(cwd: &str, session: &str, server_running: bool) -> (r: Step)
    ensures
        r@ == launch_step_of(cwd@, session@, server_running),
{
    if server_running {
        Step {
            action: Action::SessionAttach {
                session: String::from_str(session),
                cwd: String::from_str(cwd),
            },
            best_effort: false,
        }
    } else {
        Step {
            action: Action::SessionStart {
                session: String::from_str(session),
                cwd: String::from_str(cwd),
                layout: String::from_str("worktree"),
            },
            best_effort: false,
        }
    }
}

/// The overall result of an open operation: it reflects the foreground
/// session's own exit status, never the cleanup outcomes.
pub fn open_exit(zellij_success: bool) -> (r: Result<(), String>)
    ensures
        zellij_success ==> r is Ok,
        !zellij_success ==> (r matches Err(m) && m@ == session_failed_msg()),
{
    if zellij_success {
        Ok(())
    } else {
        Err(String::from_str("Zellij exited with non-zero status"))
    }
}

} // verus!

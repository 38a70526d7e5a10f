use graft::actions::{Action, Step};
use graft::reconcile::{
    delete_local_branch, ensure_branch_exists, ensure_worktree, ephemeral_cleanup, launch_zellij,
    open_exit, remove_worktree, rm_branch,
};

fn is_prune(s: &Step) -> bool {
    matches!(s.action, Action::WorktreePrune)
}

#[test]
fn ensure_branch_local_is_noop() {
    let steps = ensure_branch_exists("b", true, false);
    assert_eq!(steps.len(), 0);
    let steps = ensure_branch_exists("b", true, true);
    assert_eq!(steps.len(), 0);
}

#[test]
fn ensure_branch_remote_only_fetches() {
    let steps = ensure_branch_exists("feat", false, true);
    assert_eq!(steps.len(), 1);
    assert!(matches!(&steps[0].action, Action::FetchBranch { branch } if branch == "feat"));
    assert!(!steps[0].best_effort);
}

#[test]
fn ensure_branch_absent_creates_from_head() {
    let steps = ensure_branch_exists("new", false, false);
    assert_eq!(steps.len(), 1);
    assert!(matches!(&steps[0].action, Action::CreateBranch { branch } if branch == "new"));
    assert!(!steps[0].best_effort);
}

#[test]
fn ensure_worktree_whole_is_reused() {
    // Registered and on disk: zero mutating calls.
    let (steps, err) = ensure_worktree("/r/.worktrees/b", "b", true, true, true);
    assert_eq!(steps.len(), 0);
    assert!(err.is_none());
}

#[test]
fn ensure_worktree_twice_in_a_row_is_idempotent() {
    // The first call repairs; the facts afterwards are whole, so the second
    // call plans nothing.
    let (first, err) = ensure_worktree("/r/.worktrees/b", "b", false, false, false);
    assert!(err.is_none());
    assert!(!first.is_empty());
    let (second, err2) = ensure_worktree("/r/.worktrees/b", "b", true, true, true);
    assert_eq!(second.len(), 0);
    assert!(err2.is_none());
}

#[test]
fn ensure_worktree_stale_registration_repairs() {
    // Registered but the directory was deleted out of band: prune, forced
    // removal of the lingering registration, fresh add.
    let (steps, err) = ensure_worktree("/r/.worktrees/b", "b", true, false, false);
    assert!(err.is_none());
    assert_eq!(steps.len(), 3);
    assert!(is_prune(&steps[0]) && !steps[0].best_effort);
    assert!(
        matches!(&steps[1].action, Action::WorktreeRemove { path } if path == "/r/.worktrees/b")
    );
    assert!(steps[1].best_effort);
    assert!(matches!(&steps[2].action, Action::WorktreeAdd { path, branch }
        if path == "/r/.worktrees/b" && branch == "b"));
    assert!(!steps[2].best_effort);
}

#[test]
fn ensure_worktree_fresh_adds_directly() {
    // Neither registered nor anything on disk: the single add, no prune.
    let (steps, err) = ensure_worktree("/r/.worktrees/b", "b", false, false, false);
    assert!(err.is_none());
    assert_eq!(steps.len(), 1);
    assert!(matches!(&steps[0].action, Action::WorktreeAdd { path, branch }
        if path == "/r/.worktrees/b" && branch == "b"));
    assert!(!steps[0].best_effort);
}

#[test]
fn ensure_worktree_unregistered_directory_repairs() {
    // A directory on disk without a registration is a stale state: prune,
    // then add.
    let (steps, err) = ensure_worktree("/r/.worktrees/b", "b", false, true, true);
    assert!(err.is_none());
    assert_eq!(steps.len(), 2);
    assert!(is_prune(&steps[0]));
    assert!(matches!(&steps[1].action, Action::WorktreeAdd { path, branch }
        if path == "/r/.worktrees/b" && branch == "b"));
}

#[test]
fn ensure_worktree_obstructed_path_fails() {
    // Something that is not a directory sits at the derived path.
    let (steps, err) = ensure_worktree("/r/.worktrees/b", "b", false, false, true);
    assert_eq!(steps.len(), 1);
    assert!(is_prune(&steps[0]));
    assert_eq!(
        err.as_deref(),
        Some("Worktree path exists but is not a directory: /r/.worktrees/b"),
    );
}

#[test]
fn remove_worktree_present_forces_removal() {
    let steps = remove_worktree("/p", true);
    assert_eq!(steps.len(), 1);
    assert!(matches!(&steps[0].action, Action::WorktreeRemove { path } if path == "/p"));
    assert!(!steps[0].best_effort);
}

#[test]
fn remove_worktree_absent_still_prunes() {
    let steps = remove_worktree("/p", false);
    assert_eq!(steps.len(), 1);
    assert!(is_prune(&steps[0]));
}

#[test]
fn delete_local_branch_is_mandatory() {
    let s = delete_local_branch("b");
    assert!(matches!(&s.action, Action::DeleteBranch { branch } if branch == "b"));
    assert!(!s.best_effort);
}

#[test]
fn rm_orders_session_then_worktree_then_branch() {
    let steps = rm_branch("feature/x", true, "/r", true);
    assert_eq!(steps.len(), 3);
    assert!(
        matches!(&steps[0].action, Action::SessionDelete { session } if session == "wt-feature-x")
    );
    assert!(steps[0].best_effort);
    assert!(matches!(&steps[1].action, Action::WorktreeRemove { path }
        if path == "/r/.worktrees/feature/x"));
    assert!(!steps[1].best_effort);
    assert!(matches!(&steps[2].action, Action::DeleteBranch { branch } if branch == "feature/x"));
    assert!(!steps[2].best_effort);
}

#[test]
fn rm_keeps_branch_unless_asked() {
    let steps = rm_branch("b", false, "/r", true);
    assert_eq!(steps.len(), 2);
    assert!(!steps.iter().any(|s| matches!(s.action, Action::DeleteBranch { .. })));
}

#[test]
fn ephemeral_cleanup_is_entirely_best_effort() {
    let steps = ephemeral_cleanup("b", true, "/r", true);
    assert_eq!(steps.len(), 3);
    assert!(steps.iter().all(|s| s.best_effort));
    assert!(matches!(&steps[0].action, Action::SessionDelete { session } if session == "wt-b"));
    assert!(
        matches!(&steps[1].action, Action::WorktreeRemove { path } if path == "/r/.worktrees/b")
    );
    assert!(matches!(&steps[2].action, Action::DeleteBranch { branch } if branch == "b"));
}

#[test]
fn ephemeral_cleanup_without_branch_deletion() {
    let steps = ephemeral_cleanup("b", false, "/r", false);
    assert_eq!(steps.len(), 2);
    assert!(steps.iter().all(|s| s.best_effort));
    assert!(matches!(steps[1].action, Action::WorktreePrune));
}

#[test]
fn launch_attaches_when_server_answers() {
    let s = launch_zellij("/cwd", "wt-b", true);
    assert!(matches!(&s.action, Action::SessionAttach { session, cwd }
        if session == "wt-b" && cwd == "/cwd"));
}

#[test]
fn launch_starts_fresh_server_with_layout() {
    let s = launch_zellij("/cwd", "wt-b", false);
    assert!(matches!(&s.action, Action::SessionStart { session, cwd, layout }
        if session == "wt-b" && cwd == "/cwd" && layout == "worktree"));
}

#[test]
fn open_exit_reflects_session_status() {
    assert!(open_exit(true).is_ok());
    assert_eq!(
        open_exit(false).unwrap_err(),
        "Zellij exited with non-zero status",
    );
}

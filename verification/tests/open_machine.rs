use graft::actions::Action;
use graft::cli::{run_subcommand, Command, Operation};
use graft::open::{open_branch, OpenEvent, OpenRequest, OpenState};

fn req(branch: &str, ephemeral: bool, delete_branch: bool) -> OpenRequest {
    OpenRequest { branch: branch.to_string(), ephemeral, delete_branch }
}

#[test]
fn open_walks_every_phase_ephemerally() {
    let r = req("feat", true, false);

    let (st, steps) = open_branch(&r, OpenState::Start, OpenEvent::RootObserved {
        root: "/r".to_string(),
    });
    assert!(matches!(&st, OpenState::BranchPhase { root } if root == "/r"));
    assert_eq!(steps.len(), 1);
    assert!(
        matches!(&steps[0].action, Action::CreateDirAll { path } if path == "/r/.worktrees")
    );

    let (st, steps) = open_branch(&r, st, OpenEvent::BranchObserved {
        local_exists: false,
        remote_exists: false,
    });
    assert!(matches!(&st, OpenState::WorktreePhase { root } if root == "/r"));
    assert_eq!(steps.len(), 1);
    assert!(matches!(&steps[0].action, Action::CreateBranch { branch } if branch == "feat"));

    let (st, steps) = open_branch(&r, st, OpenEvent::WorktreeObserved {
        registered: false,
        is_dir: false,
        exists: false,
    });
    assert!(matches!(&st, OpenState::LaunchPhase { root } if root == "/r"));
    // Neither registered nor on disk: the worktree is added directly.
    assert_eq!(steps.len(), 1);
    assert!(matches!(&steps[0].action, Action::WorktreeAdd { path, branch }
        if path == "/r/.worktrees/feat" && branch == "feat"));

    let (st, steps) = open_branch(&r, st, OpenEvent::ServerObserved { running: false });
    assert!(matches!(&st, OpenState::Running { .. }));
    assert_eq!(steps.len(), 1);
    assert!(matches!(&steps[0].action, Action::SessionStart { session, cwd, layout }
        if session == "wt-feat" && cwd == "/r/.worktrees/feat" && layout == "worktree"));

    let (st, steps) = open_branch(&r, st, OpenEvent::SessionExited { success: true });
    assert!(matches!(&st, OpenState::CleanupPhase { session_success: true, .. }));
    assert_eq!(steps.len(), 0);

    let (st, steps) = open_branch(&r, st, OpenEvent::CleanupObserved { worktree_exists: true });
    assert!(matches!(&st, OpenState::Finished { failure: None }));
    assert_eq!(steps.len(), 2);
    assert!(steps.iter().all(|s| s.best_effort));
    assert!(matches!(&steps[0].action, Action::SessionDelete { session } if session == "wt-feat"));
    assert!(matches!(&steps[1].action, Action::WorktreeRemove { path }
        if path == "/r/.worktrees/feat"));
}

#[test]
fn open_without_ephemeral_skips_cleanup() {
    let r = req("b", false, false);
    let st = OpenState::Running { root: "/r".to_string() };
    let (st, steps) = open_branch(&r, st, OpenEvent::SessionExited { success: true });
    assert!(matches!(&st, OpenState::Finished { failure: None }));
    assert_eq!(steps.len(), 0);
}

#[test]
fn open_reports_session_failure() {
    let r = req("b", false, false);
    let st = OpenState::Running { root: "/r".to_string() };
    let (st, _) = open_branch(&r, st, OpenEvent::SessionExited { success: false });
    assert!(matches!(&st, OpenState::Finished { failure: Some(m) }
        if m == "Zellij exited with non-zero status"));
}

#[test]
fn open_session_failure_still_cleans_up_ephemerally() {
    let r = req("b", true, true);
    let st = OpenState::Running { root: "/r".to_string() };
    let (st, _) = open_branch(&r, st, OpenEvent::SessionExited { success: false });
    assert!(matches!(&st, OpenState::CleanupPhase { session_success: false, .. }));
    let (st, steps) = open_branch(&r, st, OpenEvent::CleanupObserved { worktree_exists: true });
    assert!(matches!(&st, OpenState::Finished { failure: Some(_) }));
    assert_eq!(steps.len(), 3);
    assert!(steps.iter().all(|s| s.best_effort));
    assert!(matches!(&steps[2].action, Action::DeleteBranch { branch } if branch == "b"));
}

#[test]
fn open_refuses_obstructed_worktree_path() {
    let r = req("b", false, false);
    let st = OpenState::WorktreePhase { root: "/r".to_string() };
    let (st, steps) = open_branch(&r, st, OpenEvent::WorktreeObserved {
        registered: false,
        is_dir: false,
        exists: true,
    });
    assert!(matches!(&st, OpenState::Finished { failure: Some(m) }
        if m == "Worktree path exists but is not a directory: /r/.worktrees/b"));
    assert_eq!(steps.len(), 1);
    assert!(matches!(steps[0].action, Action::WorktreePrune));
}

#[test]
fn open_ignores_event_of_wrong_phase() {
    let r = req("b", false, false);
    let (st, steps) = open_branch(&r, OpenState::Start, OpenEvent::SessionExited {
        success: true,
    });
    assert!(matches!(st, OpenState::Start));
    assert_eq!(steps.len(), 0);
}

#[test]
fn dispatch_maps_each_command() {
    let op = run_subcommand(Command::Open {
        branch: "b".to_string(),
        ephemeral: true,
        delete_branch: false,
    });
    assert!(matches!(&op, Operation::Open { request }
        if request.branch == "b" && request.ephemeral && !request.delete_branch));

    let op = run_subcommand(Command::Rm { branch: "b".to_string(), delete_branch: true });
    assert!(matches!(&op, Operation::Rm { branch, delete_branch }
        if branch == "b" && *delete_branch));

    let op = run_subcommand(Command::Ls { prune_worktrees: true, prune_sessions: false });
    assert!(matches!(&op, Operation::Ls { prune_worktrees: true, prune_sessions: false }));
}

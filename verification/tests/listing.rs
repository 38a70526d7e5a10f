use graft::actions::Action;
use graft::listing::{ls, ls_prepare, prune_stale_sessions};
use graft::observe::WorktreeInfo;

fn strings(v: &[&str]) -> Vec<String> {
    v.iter().map(|s| s.to_string()).collect()
}

fn wt(path: &str, branch: Option<&str>) -> WorktreeInfo {
    WorktreeInfo { path: path.to_string(), branch: branch.map(|b| b.to_string()) }
}

const BASE: &str = "/r/.worktrees";

#[test]
fn prune_deletes_exactly_the_unbacked_session() {
    // Sessions wt-foo and wt-bar, only a worktree foo observed: exactly
    // wt-bar goes, wt-foo stays.
    let worktrees = vec![wt("/r/.worktrees/foo", Some("foo"))];
    let steps = prune_stale_sessions(&strings(&["wt-foo", "wt-bar"]), &worktrees, BASE);
    assert_eq!(steps.len(), 1);
    assert!(matches!(&steps[0].action, Action::SessionDelete { session } if session == "wt-bar"));
    assert!(steps[0].best_effort);
}

#[test]
fn prune_never_touches_unprefixed_sessions() {
    let steps = prune_stale_sessions(&strings(&["main", "scratch"]), &Vec::new(), BASE);
    assert_eq!(steps.len(), 0);
}

#[test]
fn prune_protects_nested_branch_worktrees() {
    // A branch with a separator: its worktree sits at a nested path, and its
    // session is protected through the flattened base-relative fragment.
    let worktrees = vec![wt("/r/.worktrees/feature/x", Some("feature/x"))];
    let steps = prune_stale_sessions(&strings(&["wt-feature-x"]), &worktrees, BASE);
    assert_eq!(steps.len(), 0);
}

#[test]
fn prune_ignores_worktrees_outside_the_base() {
    // The main checkout is observed as a worktree but derives no fragment.
    let worktrees = vec![wt("/r", Some("main"))];
    let steps = prune_stale_sessions(&strings(&["wt-main"]), &worktrees, BASE);
    assert_eq!(steps.len(), 1);
    assert!(matches!(&steps[0].action, Action::SessionDelete { session } if session == "wt-main"));
}

#[test]
fn prune_keeps_observation_order() {
    let worktrees = vec![wt("/r/.worktrees/b", Some("b"))];
    let steps = prune_stale_sessions(
        &strings(&["wt-a", "keep", "wt-b", "wt-c"]),
        &worktrees,
        BASE,
    );
    assert_eq!(steps.len(), 2);
    assert!(matches!(&steps[0].action, Action::SessionDelete { session } if session == "wt-a"));
    assert!(matches!(&steps[1].action, Action::SessionDelete { session } if session == "wt-c"));
}

#[test]
fn ls_prepare_prunes_only_on_request() {
    assert_eq!(ls_prepare(false).len(), 0);
    let steps = ls_prepare(true);
    assert_eq!(steps.len(), 1);
    assert!(matches!(steps[0].action, Action::WorktreePrune));
}

#[test]
fn ls_renders_report_and_marks_detached() {
    let worktrees = vec![
        wt("/repo", Some("main")),
        wt("/repo/.worktrees/det", None),
    ];
    let sessions = strings(&["wt-det"]);
    let (report, steps) = ls(false, &worktrees, &sessions, "/repo/.worktrees");
    assert_eq!(
        report,
        "Worktrees:\n  - /repo  (main)\n  - /repo/.worktrees/det  (<detached>)\n\nZellij sessions:\n  - wt-det\n",
    );
    assert_eq!(steps.len(), 0);
}

#[test]
fn ls_runs_the_sweep_on_request() {
    let worktrees: Vec<WorktreeInfo> = Vec::new();
    let sessions = strings(&["wt-gone"]);
    let (_, steps) = ls(true, &worktrees, &sessions, BASE);
    assert_eq!(steps.len(), 1);
    assert!(matches!(&steps[0].action, Action::SessionDelete { session } if session == "wt-gone"));
}

#[test]
fn ls_report_with_nothing_observed() {
    let worktrees: Vec<WorktreeInfo> = Vec::new();
    let sessions: Vec<String> = Vec::new();
    let (report, _) = ls(false, &worktrees, &sessions, BASE);
    assert_eq!(report, "Worktrees:\n\nZellij sessions:\n");
}

use graft::observe::{
    git_repo_root, git_worktree_known, list_worktrees, list_zellij_sessions,
};

#[test]
fn repo_root_is_trimmed() {
    assert_eq!(git_repo_root("/home/me/repo\n"), "/home/me/repo");
    assert_eq!(git_repo_root("  /r \t\n"), "/r");
    assert_eq!(git_repo_root(""), "");
}

const PORCELAIN: &str = "worktree /repo\nHEAD 1111111111111111111111111111111111111111\nbranch refs/heads/main\n\nworktree /repo/.worktrees/feat\nHEAD 2222222222222222222222222222222222222222\nbranch refs/heads/feat\n\nworktree /repo/.worktrees/det\nHEAD 3333333333333333333333333333333333333333\ndetached\n";

#[test]
fn worktree_known_finds_exact_path() {
    assert!(git_worktree_known(PORCELAIN, "/repo/.worktrees/feat"));
    assert!(git_worktree_known(PORCELAIN, "/repo"));
    assert!(!git_worktree_known(PORCELAIN, "/repo/.worktrees/other"));
    // The whole line must match: a prefix of a registered path is not known.
    assert!(!git_worktree_known(PORCELAIN, "/repo/.worktrees"));
}

#[test]
fn worktree_known_trims_line_whitespace() {
    assert!(git_worktree_known("  worktree /a  \n", "/a"));
}

#[test]
fn list_worktrees_parses_records() {
    let ws = list_worktrees(PORCELAIN);
    assert_eq!(ws.len(), 3);
    assert_eq!(ws[0].path, "/repo");
    assert_eq!(ws[0].branch.as_deref(), Some("main"));
    assert_eq!(ws[1].path, "/repo/.worktrees/feat");
    assert_eq!(ws[1].branch.as_deref(), Some("feat"));
    assert_eq!(ws[2].path, "/repo/.worktrees/det");
    assert_eq!(ws[2].branch, None);
}

#[test]
fn list_worktrees_keeps_non_local_refs_verbatim() {
    let out = "worktree /a\nbranch refs/remotes/origin/x\n";
    let ws = list_worktrees(out);
    assert_eq!(ws.len(), 1);
    assert_eq!(ws[0].branch.as_deref(), Some("refs/remotes/origin/x"));
}

#[test]
fn list_worktrees_branch_without_record_is_dropped() {
    let out = "branch refs/heads/x\nworktree /a\n";
    let ws = list_worktrees(out);
    assert_eq!(ws.len(), 1);
    assert_eq!(ws[0].path, "/a");
    assert_eq!(ws[0].branch, None);
}

#[test]
fn list_worktrees_empty_output() {
    assert_eq!(list_worktrees("").len(), 0);
}

#[test]
fn list_worktrees_record_without_trailing_newline() {
    let ws = list_worktrees("worktree /tail");
    assert_eq!(ws.len(), 1);
    assert_eq!(ws[0].path, "/tail");
}

#[test]
fn sessions_take_first_token_per_line() {
    let out = "main [Created 2h ago]\n\nwt-foo (current)\n  indented  line\n";
    let ss = list_zellij_sessions(out);
    assert_eq!(ss, vec!["main", "wt-foo", "indented"]);
}

#[test]
fn sessions_empty_output() {
    assert_eq!(list_zellij_sessions("").len(), 0);
    assert_eq!(list_zellij_sessions("\n\n  \n").len(), 0);
}

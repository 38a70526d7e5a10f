use graft::naming::{session_name, worktree_base, worktree_path};

#[test]
fn session_name_flattens_separators() {
    assert_eq!(session_name("feature/x"), "wt-feature-x");
}

#[test]
fn session_name_plain_branch() {
    assert_eq!(session_name("main"), "wt-main");
}

#[test]
fn session_name_is_deterministic_across_calls() {
    let a = session_name("feature/x");
    let b = session_name("feature/x");
    assert_eq!(a, b);
    assert_eq!(a, "wt-feature-x");
}

#[test]
fn session_name_collides_on_separator_choice() {
    // Documented limitation: a separator and a hyphen flatten alike.
    assert_eq!(session_name("feature/x"), session_name("feature-x"));
}

#[test]
fn session_name_nested_separators() {
    assert_eq!(session_name("a/b/c"), "wt-a-b-c");
}

#[test]
fn worktree_base_under_root() {
    assert_eq!(worktree_base("/repo"), "/repo/.worktrees");
}

#[test]
fn worktree_path_preserves_hierarchy() {
    assert_eq!(worktree_path("/repo", "feature/x"), "/repo/.worktrees/feature/x");
    assert_eq!(worktree_path("/repo", "main"), "/repo/.worktrees/main");
}

#[test]
fn anyhow_carries_message() {
    assert_eq!(graft::anyhow("boom"), "boom");
}

//! The command-line surface as plain data, and the dispatch from a parsed
//! command to the operation the reconciler runs. Argument parsing itself is
//! an external concern; the driver builds a `Command` and hands it here.

use vstd::prelude::*;
use crate::open::OpenRequest;

verus! {

/// A parsed invocation.
pub struct Cli {
    pub command: Command,
}

/// The three operations the tool offers.
pub enum Command {
    /// Open (or create) a worktree for the branch and attach a session.
    Open { branch: String, ephemeral: bool, delete_branch: bool },
    /// Remove the worktree and session for the branch.
    Rm { branch: String, delete_branch: bool },
    /// List worktrees and sessions, optionally pruning stale ones.
    Ls { prune_worktrees: bool, prune_sessions: bool },
}

/// An operation, normalised to what the reconciler consumes.
pub enum Operation {
    Open { request: OpenRequest },
    Rm { branch: String, delete_branch: bool },
    Ls { prune_worktrees: bool, prune_sessions: bool },
}

/// Dispatches a parsed command to its operation.
pub fn run_subcommand(cmd: Command) -> (r: Operation)
    ensures
        (cmd matches Command::Open { branch, ephemeral, delete_branch } ==> r matches
            Operation::Open { request } && request.branch@ == branch@ && request.ephemeral
            == ephemeral && request.delete_branch == delete_branch),
        (cmd matches Command::Rm { branch, delete_branch } ==> r matches Operation::Rm {
            branch: b,
            delete_branch: d,
        } && b@ == branch@ && d == delete_branch),
        (cmd matches Command::Ls { prune_worktrees, prune_sessions } ==> r matches Operation::Ls {
            prune_worktrees: w,
            prune_sessions: s,
        } && w == prune_worktrees && s == prune_sessions),
{
    match cmd {
        Command::Open { branch, ephemeral, delete_branch } => Operation::Open {
            request: OpenRequest { branch, ephemeral, delete_branch },
        },
        Command::Rm { branch, delete_branch } => Operation::Rm { branch, delete_branch },
        Command::Ls { prune_worktrees, prune_sessions } => Operation::Ls {
            prune_worktrees,
            prune_sessions,
        },
    }
}

} // verus!

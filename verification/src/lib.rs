//! Reconciles a version-control branch, a worktree directory checked out from
//! it, and a terminal-multiplexer session attached to that directory into a
//! consistent "open" state, and reverses that state on teardown.
//!
//! All state lives with the external tools; this library is the pure part:
//! it parses the tools' listing output, derives worktree paths and session
//! names from branch names, and computes the ordered action plans that a thin
//! unverified driver executes by invoking the tools.

use vstd::prelude::*;

pub mod actions;
pub mod cli;
pub mod listing;
pub mod naming;
pub mod observe;
pub mod open;
pub mod reconcile;
pub mod text;
pub mod world;

verus! {

/// Builds an error value carrying exactly the given diagnostic text.
pub fn anyhow(msg: &str) -> (r: String)
    ensures
        r@ == msg@,
{
    String::from_str(msg)
}

} // verus!

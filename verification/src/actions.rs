//! The side-effecting tool invocations the reconciler can order. The library
//! never performs them; it emits ordered plans of steps, and the unverified
//! driver invokes the corresponding tool for each step in turn.

use vstd::prelude::*;

verus! {

/// One tool invocation.
pub enum Action {
    /// Create the directory and its parents.
    CreateDirAll { path: String },
    /// Fetch the named branch from the fixed remote into a same-named local
    /// branch.
    FetchBranch { branch: String },
    /// Create a local branch of that name from the current head.
    CreateBranch { branch: String },
    /// Delete the local branch.
    DeleteBranch { branch: String },
    /// Drop worktree registrations whose directories no longer exist.
    WorktreePrune,
    /// Forcibly remove the worktree at the path, registration and directory.
    WorktreeRemove { path: String },
    /// Add a worktree at the path, checked out to the branch.
    WorktreeAdd { path: String, branch: String },
    /// Attach to the session, creating it if absent, in the given directory.
    SessionAttach { session: String, cwd: String },
    /// Start a new multiplexer server in the foreground with the given
    /// session name, working directory and named layout.
    SessionStart { session: String, cwd: String, layout: String },
    /// Delete the session; deleting an absent session is not an error.
    SessionDelete { session: String },
}

/// The mathematical shape of an `Action`.
pub enum ActionView {
    CreateDirAll { path: Seq<char> },
    FetchBranch { branch: Seq<char> },
    CreateBranch { branch: Seq<char> },
    DeleteBranch { branch: Seq<char> },
    WorktreePrune,
    WorktreeRemove { path: Seq<char> },
    WorktreeAdd { path: Seq<char>, branch: Seq<char> },
    SessionAttach { session: Seq<char>, cwd: Seq<char> },
    SessionStart { session: Seq<char>, cwd: Seq<char>, layout: Seq<char> },
    SessionDelete { session: Seq<char> },
}

impl View for Action {
    type V = ActionView;

    open spec fn view(&self) -> ActionView {
        match self {
            Action::CreateDirAll { path } => ActionView::CreateDirAll { path: path@ },
            Action::FetchBranch { branch } => ActionView::FetchBranch { branch: branch@ },
            Action::CreateBranch { branch } => ActionView::CreateBranch { branch: branch@ },
            Action::DeleteBranch { branch } => ActionView::DeleteBranch { branch: branch@ },
            Action::WorktreePrune => ActionView::WorktreePrune,
            Action::WorktreeRemove { path } => ActionView::WorktreeRemove { path: path@ },
            Action::WorktreeAdd { path, branch } => ActionView::WorktreeAdd {
                path: path@,
                branch: branch@,
            },
            Action::SessionAttach { session, cwd } => ActionView::SessionAttach {
                session: session@,
                cwd: cwd@,
            },
            Action::SessionStart { session, cwd, layout } => ActionView::SessionStart {
                session: session@,
                cwd: cwd@,
                layout: layout@,
            },
            Action::SessionDelete { session } => ActionView::SessionDelete { session: session@ },
        }
    }
}

impl DeepView for Action {
    type V = ActionView;

    open spec fn deep_view(&self) -> ActionView {
        self.view()
    }
}

/// One step of a plan: an action, and whether its failure is tolerated.
/// A mandatory step's failure aborts the rest of the operation; a best-effort
/// step's failure is reported and the remaining steps still run.
pub struct Step {
    pub action: Action,
    pub best_effort: bool,
}

/// The mathematical shape of a `Step`.
pub struct StepView {
    pub action: ActionView,
    pub best_effort: bool,
}

impl View for Step {
    type V = StepView;

    open spec fn view(&self) -> StepView {
        StepView { action: self.action@, best_effort: self.best_effort }
    }
}

impl DeepView for Step {
    type V = StepView;

    open spec fn deep_view(&self) -> StepView {
        self.view()
    }
}

/// A mandatory step performing the action.
pub open spec fn mandatory(a: ActionView) -> StepView {
    StepView { action: a, best_effort: false }
}

/// A best-effort step performing the action.
pub open spec fn best_effort(a: ActionView) -> StepView {
    StepView { action: a, best_effort: true }
}

} // verus!

//! The open operation as an explicit state machine. The driver alternates
//! with it: it hands in the next observation, and gets back the next state
//! and the plan of tool invocations to perform before the next observation.
//! The decisions all live here; the driver only observes and executes.

use vstd::prelude::*;
use crate::actions::{Action, ActionView, Step, StepView, mandatory};
use crate::naming::{
    session_name, session_name_of, worktree_base, worktree_base_of, worktree_path,
    worktree_path_of,
};
use crate::reconcile::{
    cleanup_plan, ensure_branch_exists, ensure_branch_plan, ensure_worktree,
    ensure_worktree_error, ensure_worktree_plan, ephemeral_cleanup, launch_step_of, launch_zellij,
    session_failed_msg,
};

verus! {

/// What the caller asked the open operation for.
pub struct OpenRequest {
    pub branch: String,
    pub ephemeral: bool,
    pub delete_branch: bool,
}

/// The mathematical shape of an `OpenRequest`.
#[verifier::ext_equal]
pub struct OpenRequestView {
    pub branch: Seq<char>,
    pub ephemeral: bool,
    pub delete_branch: bool,
}

impl View for OpenRequest {
    type V = OpenRequestView;

    open spec fn view(&self) -> OpenRequestView {
        OpenRequestView {
            branch: self.branch@,
            ephemeral: self.ephemeral,
            delete_branch: self.delete_branch,
        }
    }
}

/// Where the open operation stands. The phases follow the operation's fixed
/// order: make the branch exist, make the worktree whole, launch the
/// foreground session, wait for it, then clean up if the open was ephemeral.
pub enum OpenState {
    /// Nothing observed yet; the repository root comes first.
    Start,
    /// The root is known; the branch facts come next.
    BranchPhase { root: String },
    /// The branch exists locally; the worktree facts come next.
    WorktreePhase { root: String },
    /// The worktree is whole; whether the multiplexer server answers comes
    /// next.
    LaunchPhase { root: String },
    /// The foreground session is running; its exit status comes next.
    Running { root: String },
    /// Ephemeral only: the session exited; whether the worktree directory is
    /// still on disk comes next.
    CleanupPhase { root: String, session_success: bool },
    /// The operation is over; `failure` carries its diagnostic if it failed.
    Finished { failure: Option<String> },
}

/// The mathematical shape of an `OpenState`.
#[verifier::ext_equal]
pub enum OpenStateView {
    Start,
    BranchPhase { root: Seq<char> },
    WorktreePhase { root: Seq<char> },
    LaunchPhase { root: Seq<char> },
    Running { root: Seq<char> },
    CleanupPhase { root: Seq<char>, session_success: bool },
    Finished { failure: Option<Seq<char>> },
}

impl View for OpenState {
    type V = OpenStateView;

    open spec fn view(&self) -> OpenStateView {
        match self {
            OpenState::Start => OpenStateView::Start,
            OpenState::BranchPhase { root } => OpenStateView::BranchPhase { root: root@ },
            OpenState::WorktreePhase { root } => OpenStateView::WorktreePhase { root: root@ },
            OpenState::LaunchPhase { root } => OpenStateView::LaunchPhase { root: root@ },
            OpenState::Running { root } => OpenStateView::Running { root: root@ },
            OpenState::CleanupPhase { root, session_success } => OpenStateView::CleanupPhase {
                root: root@,
                session_success: *session_success,
            },
            OpenState::Finished { failure } => OpenStateView::Finished {
                failure: failure.deep_view(),
            },
        }
    }
}

/// One observation the driver hands back.
pub enum OpenEvent {
    /// The repository root, as the version-control tool reported it.
    RootObserved { root: String },
    /// Whether the branch exists locally, and whether the remote has it.
    BranchObserved { local_exists: bool, remote_exists: bool },
    /// The worktree facts: registered with the tool, a directory on disk,
    /// and present at all.
    WorktreeObserved { registered: bool, is_dir: bool, exists: bool },
    /// Whether the multiplexer server answered a listing call.
    ServerObserved { running: bool },
    /// The foreground session's exit status.
    SessionExited { success: bool },
    /// Whether the worktree directory is still on disk after the session.
    CleanupObserved { worktree_exists: bool },
}

/// The mathematical shape of an `OpenEvent`.
#[verifier::ext_equal]
pub enum OpenEventView {
    RootObserved { root: Seq<char> },
    BranchObserved { local_exists: bool, remote_exists: bool },
    WorktreeObserved { registered: bool, is_dir: bool, exists: bool },
    ServerObserved { running: bool },
    SessionExited { success: bool },
    CleanupObserved { worktree_exists: bool },
}

impl View for OpenEvent {
    type V = OpenEventView;

    open spec fn view(&self) -> OpenEventView {
        match self {
            OpenEvent::RootObserved { root } => OpenEventView::RootObserved { root: root@ },
            OpenEvent::BranchObserved { local_exists, remote_exists } => OpenEventView::BranchObserved {
                local_exists: *local_exists,
                remote_exists: *remote_exists,
            },
            OpenEvent::WorktreeObserved { registered, is_dir, exists } => OpenEventView::WorktreeObserved {
                registered: *registered,
                is_dir: *is_dir,
                exists: *exists,
            },
            OpenEvent::ServerObserved { running } => OpenEventView::ServerObserved {
                running: *running,
            },
            OpenEvent::SessionExited { success } => OpenEventView::SessionExited {
                success: *success,
            },
            OpenEvent::CleanupObserved { worktree_exists } => OpenEventView::CleanupObserved {
                worktree_exists: *worktree_exists,
            },
        }
    }
}

/// The failure of the whole operation as a function of the foreground
/// session's exit status: the final result reflects that status alone.
pub open spec fn exit_failure(success: bool) -> Option<Seq<char>> {
    if success {
        None
    } else {
        Some(session_failed_msg())
    }
}

/// The transition relation of the open operation. An observation that does
/// not belong to the current phase changes nothing.
pub open spec fn open_next(req: OpenRequestView, st: OpenStateView, ev: OpenEventView) -> (
    OpenStateView,
    Seq<StepView>,
) {
    match (st, ev) {
        (OpenStateView::Start, OpenEventView::RootObserved { root }) => (
            OpenStateView::BranchPhase { root },
            seq![mandatory(ActionView::CreateDirAll { path: worktree_base_of(root) })],
        ),
        (
            OpenStateView::BranchPhase { root },
            OpenEventView::BranchObserved { local_exists, remote_exists },
        ) => (
            OpenStateView::WorktreePhase { root },
            ensure_branch_plan(req.branch, local_exists, remote_exists),
        ),
        (
            OpenStateView::WorktreePhase { root },
            OpenEventView::WorktreeObserved { registered, is_dir, exists },
        ) => {
            let path = worktree_path_of(root, req.branch);
            let plan = ensure_worktree_plan(path, req.branch, registered, is_dir, exists);
            match ensure_worktree_error(path, registered, is_dir, exists) {
                Some(m) => (OpenStateView::Finished { failure: Some(m) }, plan),
                None => (OpenStateView::LaunchPhase { root }, plan),
            }
        },
        (OpenStateView::LaunchPhase { root }, OpenEventView::ServerObserved { running }) => (
            OpenStateView::Running { root },
            seq![
                launch_step_of(
                    worktree_path_of(root, req.branch),
                    session_name_of(req.branch),
                    running,
                ),
            ],
        ),
        (OpenStateView::Running { root }, OpenEventView::SessionExited { success }) => {
            if req.ephemeral {
                (OpenStateView::CleanupPhase { root, session_success: success }, Seq::empty())
            } else {
                (OpenStateView::Finished { failure: exit_failure(success) }, Seq::empty())
            }
        },
        (
            OpenStateView::CleanupPhase { root, session_success },
            OpenEventView::CleanupObserved { worktree_exists },
        ) => (
            OpenStateView::Finished { failure: exit_failure(session_success) },
            cleanup_plan(root, req.branch, req.delete_branch, worktree_exists),
        ),
        (s, _) => (s, Seq::empty()),
    }
}

/// One turn of the open operation: from the current state and the latest
/// observation to the next state and the plan to execute before observing
/// again.
pub fn open_branch(req: &OpenRequest, st: OpenState, ev: OpenEvent) -> (r: (OpenState, Vec<Step>))
    ensures
        r.0@ == open_next(req@, st@, ev@).0,
        r.1.deep_view() == open_next(req@, st@, ev@).1,
{
    match (st, ev) {
        (OpenState::Start, OpenEvent::RootObserved { root }) => {
            let base = worktree_base(root.as_str());
            let mut steps: Vec<Step> = Vec::new();
            steps.push(Step { action: Action::CreateDirAll { path: base }, best_effort: false });
            proof {
                assert(steps.deep_view() =~~= open_next(req@, st@, ev@).1);
            }
            (OpenState::BranchPhase { root }, steps)
        },
        (OpenState::BranchPhase { root }, OpenEvent::BranchObserved { local_exists, remote_exists }) => {
            let steps = ensure_branch_exists(req.branch.as_str(), local_exists, remote_exists);
            (OpenState::WorktreePhase { root }, steps)
        },
        (OpenState::WorktreePhase { root }, OpenEvent::WorktreeObserved { registered, is_dir, exists }) => {
            let path = worktree_path(root.as_str(), req.branch.as_str());
            let (steps, error) = ensure_worktree(
                path.as_str(),
                req.branch.as_str(),
                registered,
                is_dir,
                exists,
            );
            match error {
                Some(m) => (OpenState::Finished { failure: Some(m) }, steps),
                None => (OpenState::LaunchPhase { root }, steps),
            }
        },
        (OpenState::LaunchPhase { root }, OpenEvent::ServerObserved { running }) => {
            let path = worktree_path(root.as_str(), req.branch.as_str());
            let session = session_name(req.branch.as_str());
            let mut steps: Vec<Step> = Vec::new();
            steps.push(launch_zellij(path.as_str(), session.as_str(), running));
            proof {
                assert(steps.deep_view() =~~= open_next(req@, st@, ev@).1);
            }
            (OpenState::Running { root }, steps)
        },
        (OpenState::Running { root }, OpenEvent::SessionExited { success }) => {
            let steps: Vec<Step> = Vec::new();
            proof {
                assert(steps.deep_view() =~~= Seq::<StepView>::empty());
            }
            if req.ephemeral {
                (OpenState::CleanupPhase { root, session_success: success }, steps)
            } else if success {
                (OpenState::Finished { failure: None }, steps)
            } else {
                (
                    OpenState::Finished {
                        failure: Some(String::from_str("Zellij exited with non-zero status")),
                    },
                    steps,
                )
            }
        },
        (
            OpenState::CleanupPhase { root, session_success },
            OpenEvent::CleanupObserved { worktree_exists },
        ) => {
            let steps = ephemeral_cleanup(
                req.branch.as_str(),
                req.delete_branch,
                root.as_str(),
                worktree_exists,
            );
            if session_success {
                (OpenState::Finished { failure: None }, steps)
            } else {
                (
                    OpenState::Finished {
                        failure: Some(String::from_str("Zellij exited with non-zero status")),
                    },
                    steps,
                )
            }
        },
        (s, _) => {
            let steps: Vec<Step> = Vec::new();
            proof {
                assert(steps.deep_view() =~~= Seq::<StepView>::empty());
            }
            (s, steps)
        },
    }
}

} // verus!

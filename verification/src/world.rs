//! A spec-level model of the external tools' state, and the laws the plans
//! satisfy under it. The model gives each tool invocation its documented
//! successful effect; the laws then say that the reconciler's plans reach the
//! states the design promises. What a tool does beyond these effects — the
//! commits a fetch brings over, the contents of a directory — lies outside
//! the model.

use vstd::prelude::*;
use crate::actions::{ActionView, StepView};
use crate::naming::{session_name_of, worktree_path_of};
use crate::reconcile::{
    cleanup_plan, ensure_branch_plan, ensure_worktree_error, ensure_worktree_plan, launch_step_of,
    rm_plan,
};

verus! {

/// The observable state of the external tools: which branches exist locally,
/// which paths the worktree registry holds, which paths are directories on
/// disk, which paths exist at all, and which sessions the multiplexer knows.
#[verifier::ext_equal]
pub struct World {
    pub local_branches: Set<Seq<char>>,
    pub registered: Set<Seq<char>>,
    pub dirs: Set<Seq<char>>,
    pub present: Set<Seq<char>>,
    pub sessions: Set<Seq<char>>,
}

impl World {
    /// Directories are things that exist.
    pub open spec fn wf(self) -> bool {
        self.dirs.subset_of(self.present)
    }

    /// The observed facts about a worktree path are accurate in this world.
    pub open spec fn worktree_facts(
        self,
        path: Seq<char>,
        registered: bool,
        is_dir: bool,
        exists: bool,
    ) -> bool {
        &&& registered == self.registered.contains(path)
        &&& is_dir == self.dirs.contains(path)
        &&& exists == self.present.contains(path)
    }
}

/// The documented successful effect of one action on the world.
pub open spec fn apply_action(w: World, a: ActionView) -> World {
    match a {
        ActionView::CreateDirAll { path } => World {
            dirs: w.dirs.insert(path),
            present: w.present.insert(path),
            ..w
        },
        ActionView::FetchBranch { branch } => World {
            local_branches: w.local_branches.insert(branch),
            ..w
        },
        ActionView::CreateBranch { branch } => World {
            local_branches: w.local_branches.insert(branch),
            ..w
        },
        ActionView::DeleteBranch { branch } => World {
            local_branches: w.local_branches.remove(branch),
            ..w
        },
        ActionView::WorktreePrune => World { registered: w.registered.intersect(w.dirs), ..w },
        ActionView::WorktreeRemove { path } => World {
            registered: w.registered.remove(path),
            dirs: w.dirs.remove(path),
            present: w.present.remove(path),
            ..w
        },
        ActionView::WorktreeAdd { path, branch } => World {
            registered: w.registered.insert(path),
            dirs: w.dirs.insert(path),
            present: w.present.insert(path),
            ..w
        },
        ActionView::SessionAttach { session, cwd } => World {
            sessions: w.sessions.insert(session),
            ..w
        },
        ActionView::SessionStart { session, cwd, layout } => World {
            sessions: w.sessions.insert(session),
            ..w
        },
        ActionView::SessionDelete { session } => World {
            sessions: w.sessions.remove(session),
            ..w
        },
    }
}

/// The effect of a whole plan, each step succeeding, in order.
pub open spec fn apply_plan(w: World, plan: Seq<StepView>) -> World
    decreases plan.len(),
{
    if plan.len() == 0 {
        w
    } else {
        apply_plan(apply_action(w, plan[0].action), plan.drop_first())
    }
}

/// Unfolds one step of a plan.
pub proof fn lemma_apply_plan_step(w: World, plan: Seq<StepView>)
    requires
        plan.len() > 0,
    ensures
        apply_plan(w, plan) == apply_plan(apply_action(w, plan[0].action), plan.drop_first()),
{
}

/// An empty plan changes nothing.
pub proof fn lemma_apply_plan_empty(w: World, plan: Seq<StepView>)
    requires
        plan.len() == 0,
    ensures
        apply_plan(w, plan) == w,
{
}

/// Applying a plan keeps the world well formed.
pub proof fn lemma_apply_plan_wf(w: World, plan: Seq<StepView>)
    requires
        w.wf(),
    ensures
        apply_plan(w, plan).wf(),
    decreases plan.len(),
{
    if plan.len() > 0 {
        let w1 = apply_action(w, plan[0].action);
        assert(w1.wf());
        lemma_apply_plan_wf(w1, plan.drop_first());
    }
}

/// Law: when a branch exists nowhere, the plan that ensures it is exactly one
/// creation from the current head, after which the branch exists locally;
/// when only the remote has it, the plan is exactly one fetch into a
/// same-named local branch, after which it also exists locally. In every case
/// the branch exists locally afterwards, and no other branch is touched.
pub proof fn lemma_ensure_branch(w: World, branch: Seq<char>, remote: bool)
    ensures
        ({
            let local = w.local_branches.contains(branch);
            let plan = ensure_branch_plan(branch, local, remote);
            let w1 = apply_plan(w, plan);
            &&& w1.local_branches.contains(branch)
            &&& (!local && !remote) ==> plan =~= seq![
                crate::actions::mandatory(ActionView::CreateBranch { branch }),
            ]
            &&& (!local && remote) ==> plan =~= seq![
                crate::actions::mandatory(ActionView::FetchBranch { branch }),
            ]
            &&& forall|b: Seq<char>|
                b != branch ==> w1.local_branches.contains(b) == w.local_branches.contains(b)
            &&& w1.registered == w.registered && w1.dirs == w.dirs && w1.present == w.present
                && w1.sessions == w.sessions
        }),
{
    let local = w.local_branches.contains(branch);
    let plan = ensure_branch_plan(branch, local, remote);
    if local {
        lemma_apply_plan_empty(w, plan);
    } else {
        let w1 = apply_action(w, plan[0].action);
        lemma_apply_plan_step(w, plan);
        assert(plan.drop_first() =~= Seq::<StepView>::empty());
        lemma_apply_plan_empty(w1, plan.drop_first());
    }
}

/// Law: the worktree-ensure step repairs every stale state it does not
/// refuse. Whenever the step reports no error, the worktree path is both
/// registered and a directory on disk after its plan runs — whether it was
/// whole, only registered, only on disk, or wholly absent before.
pub proof fn lemma_ensure_worktree_repairs(
    w: World,
    path: Seq<char>,
    branch: Seq<char>,
    registered: bool,
    is_dir: bool,
    exists: bool,
)
    requires
        w.wf(),
        w.worktree_facts(path, registered, is_dir, exists),
        ensure_worktree_error(path, registered, is_dir, exists) is None,
    ensures
        ({
            let w1 = apply_plan(w, ensure_worktree_plan(path, branch, registered, is_dir, exists));
            &&& w1.registered.contains(path)
            &&& w1.dirs.contains(path)
            &&& w1.present.contains(path)
            &&& w1.local_branches == w.local_branches
            &&& w1.sessions == w.sessions
        }),
{
    let plan = ensure_worktree_plan(path, branch, registered, is_dir, exists);
    if registered && is_dir {
        lemma_apply_plan_empty(w, plan);
    } else {
        let w1 = apply_action(w, plan[0].action);
        let rest = plan.drop_first();
        lemma_apply_plan_step(w, plan);
        if registered {
            let w2 = apply_action(w1, rest[0].action);
            let rest2 = rest.drop_first();
            lemma_apply_plan_step(w1, rest);
            assert(rest2[0].action == (ActionView::WorktreeAdd { path, branch }));
            assert(rest2.drop_first() =~= Seq::<StepView>::empty());
            lemma_apply_plan_step(w2, rest2);
            lemma_apply_plan_empty(apply_action(w2, rest2[0].action), rest2.drop_first());
        } else if is_dir {
            assert(rest[0].action == (ActionView::WorktreeAdd { path, branch }));
            assert(rest.drop_first() =~= Seq::<StepView>::empty());
            lemma_apply_plan_step(w1, rest);
            lemma_apply_plan_empty(apply_action(w1, rest[0].action), rest.drop_first());
        } else {
            assert(plan[0].action == (ActionView::WorktreeAdd { path, branch }));
            assert(rest =~= Seq::<StepView>::empty());
            lemma_apply_plan_empty(w1, rest);
        }
    }
}

/// Law: the worktree-ensure step is idempotent. Once its plan has run with no
/// error reported, running the step again on the facts of the new world
/// yields an empty plan — zero further mutating tool calls.
pub proof fn lemma_ensure_worktree_idempotent(
    w: World,
    path: Seq<char>,
    branch: Seq<char>,
    registered: bool,
    is_dir: bool,
    exists: bool,
)
    requires
        w.wf(),
        w.worktree_facts(path, registered, is_dir, exists),
        ensure_worktree_error(path, registered, is_dir, exists) is None,
    ensures
        ({
            let w1 = apply_plan(w, ensure_worktree_plan(path, branch, registered, is_dir, exists));
            ensure_worktree_plan(
                path,
                branch,
                w1.registered.contains(path),
                w1.dirs.contains(path),
                w1.present.contains(path),
            ) =~= Seq::<StepView>::empty()
        }),
{
    lemma_ensure_worktree_repairs(w, path, branch, registered, is_dir, exists);
}

/// Law: a completed open sequence reaches the open state. With the facts
/// observed accurately at each step — the branch facts in the world as it
/// stands, the worktree facts in the world after the branch plan ran — and
/// the worktree step reporting no error, running the branch plan, the
/// worktree plan and the launch step leaves the branch existing locally, the
/// worktree both registered and on disk at the derived path, and a session
/// with the derived name known to the multiplexer.
pub proof fn lemma_open_reaches_target(
    w: World,
    root: Seq<char>,
    branch: Seq<char>,
    remote: bool,
    server_running: bool,
)
    requires
        w.wf(),
    ensures
        ({
            let path = worktree_path_of(root, branch);
            let w1 = apply_plan(
                w,
                ensure_branch_plan(branch, w.local_branches.contains(branch), remote),
            );
            let registered = w1.registered.contains(path);
            let is_dir = w1.dirs.contains(path);
            let exists = w1.present.contains(path);
            ensure_worktree_error(path, registered, is_dir, exists) is None ==> ({
                let w2 = apply_plan(
                    w1,
                    ensure_worktree_plan(path, branch, registered, is_dir, exists),
                );
                let w3 = apply_action(
                    w2,
                    launch_step_of(path, session_name_of(branch), server_running).action,
                );
                &&& w3.local_branches.contains(branch)
                &&& w3.registered.contains(path)
                &&& w3.dirs.contains(path)
                &&& w3.sessions.contains(session_name_of(branch))
            })
        }),
{
    let path = worktree_path_of(root, branch);
    lemma_ensure_branch(w, branch, remote);
    let w1 = apply_plan(w, ensure_branch_plan(branch, w.local_branches.contains(branch), remote));
    assert(w1.wf());
    let registered = w1.registered.contains(path);
    let is_dir = w1.dirs.contains(path);
    let exists = w1.present.contains(path);
    if ensure_worktree_error(path, registered, is_dir, exists) is None {
        lemma_ensure_worktree_repairs(w1, path, branch, registered, is_dir, exists);
    }
}

/// Law: the remove operation leaves neither the session nor the worktree
/// behind, and deletes the local branch exactly when that was requested.
pub proof fn lemma_rm_round_trip(
    w: World,
    root: Seq<char>,
    branch: Seq<char>,
    delete_branch: bool,
)
    requires
        w.wf(),
    ensures
        ({
            let path = worktree_path_of(root, branch);
            let w1 = apply_plan(
                w,
                rm_plan(root, branch, delete_branch, w.present.contains(path)),
            );
            &&& !w1.sessions.contains(session_name_of(branch))
            &&& !w1.dirs.contains(path)
            &&& !w1.present.contains(path)
            &&& !w1.registered.contains(path)
            &&& w1.local_branches.contains(branch) == (!delete_branch
                && w.local_branches.contains(branch))
        }),
{
    let path = worktree_path_of(root, branch);
    let exists = w.present.contains(path);
    let plan = rm_plan(root, branch, delete_branch, exists);
    lemma_teardown(w, root, branch, delete_branch, plan);
}

/// Law: the ephemeral round trip. After the cleanup plan runs, no session
/// with the branch's derived name and no worktree at the derived path is
/// left; the local branch is gone exactly when its deletion was requested,
/// and untouched otherwise.
pub proof fn lemma_ephemeral_round_trip(
    w: World,
    root: Seq<char>,
    branch: Seq<char>,
    delete_branch: bool,
)
    requires
        w.wf(),
    ensures
        ({
            let path = worktree_path_of(root, branch);
            let w1 = apply_plan(
                w,
                cleanup_plan(root, branch, delete_branch, w.present.contains(path)),
            );
            &&& !w1.sessions.contains(session_name_of(branch))
            &&& !w1.dirs.contains(path)
            &&& !w1.present.contains(path)
            &&& !w1.registered.contains(path)
            &&& w1.local_branches.contains(branch) == (!delete_branch
                && w.local_branches.contains(branch))
        }),
{
    let path = worktree_path_of(root, branch);
    let exists = w.present.contains(path);
    let plan = cleanup_plan(root, branch, delete_branch, exists);
    lemma_teardown(w, root, branch, delete_branch, plan);
}

/// Both teardown plans share their shape: session delete, then either a
/// prune (directory already gone) or a forced removal, then the optional
/// branch deletion.
proof fn lemma_teardown(
    w: World,
    root: Seq<char>,
    branch: Seq<char>,
    delete_branch: bool,
    plan: Seq<StepView>,
)
    requires
        w.wf(),
        ({
            let path = worktree_path_of(root, branch);
            let exists = w.present.contains(path);
            plan == rm_plan(root, branch, delete_branch, exists) || plan == cleanup_plan(
                root,
                branch,
                delete_branch,
                exists,
            )
        }),
    ensures
        ({
            let path = worktree_path_of(root, branch);
            let w1 = apply_plan(w, plan);
            &&& !w1.sessions.contains(session_name_of(branch))
            &&& !w1.dirs.contains(path)
            &&& !w1.present.contains(path)
            &&& !w1.registered.contains(path)
            &&& w1.local_branches.contains(branch) == (!delete_branch
                && w.local_branches.contains(branch))
        }),
{
    let path = worktree_path_of(root, branch);
    let exists = w.present.contains(path);
    assert(plan[0].action == (ActionView::SessionDelete { session: session_name_of(branch) }));
    let w1 = apply_action(w, plan[0].action);
    let rest = plan.drop_first();
    let w2 = apply_action(w1, rest[0].action);
    let rest2 = rest.drop_first();
    lemma_apply_plan_step(w, plan);
    lemma_apply_plan_step(w1, rest);
    if !exists {
        assert(rest[0].action == ActionView::WorktreePrune);
        assert(!w2.registered.contains(path));
    } else {
        assert(rest[0].action == (ActionView::WorktreeRemove { path }));
    }
    if delete_branch {
        assert(rest2[0].action == (ActionView::DeleteBranch { branch }));
        assert(rest2.drop_first() =~= Seq::<StepView>::empty());
        lemma_apply_plan_step(w2, rest2);
        lemma_apply_plan_empty(apply_action(w2, rest2[0].action), rest2.drop_first());
    } else {
        assert(rest2 =~= Seq::<StepView>::empty());
        lemma_apply_plan_empty(w2, rest2);
    }
}

} // verus!

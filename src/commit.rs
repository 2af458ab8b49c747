use vstd::prelude::*;

use crate::ecs::{Ecs, EntityData};
use crate::surface::{committed_after, HookId, SurfaceView};

verus! {

/// What the caller does next in a commit.
#[derive(Clone, Copy, Debug, PartialEq, Eq, Structural)]
pub enum CommitAction {
    /// Run this hook with the surface.
    RunHook(HookId),
    /// Tell the surface-committed collaborator; the commit is complete.
    Committed,
}

/// Where a commit stands.
#[derive(Clone, Copy, Debug, PartialEq, Eq, Structural)]
pub enum CommitStage {
    /// Running the pre-commit hooks; the transfer follows them.
    PreCommit,
    /// Running the post-commit hooks; the transfer is done.
    PostCommit,
    /// Nothing is left to do.
    Done,
}

/// A commit in progress: the commit pipeline as a sequence of steps, each of
/// which tells the caller what to run, so that hooks run with the whole
/// compositor state in hand.
///
/// The hooks of each phase are copied when the phase starts: a hook that
/// registers more hooks changes later commits, not this one.
#[derive(Debug)]
pub struct CommitRun {
    surface: EntityData,
    hooks: Vec<HookId>,
    next: usize,
    stage: CommitStage,
}

/// A commit in progress as values.
pub struct CommitRunView {
    pub surface: u64,
    pub hooks: Seq<HookId>,
    pub next: nat,
    pub stage: CommitStage,
}

impl View for CommitRun {
    type V = CommitRunView;

    closed spec fn view(&self) -> CommitRunView {
        CommitRunView { surface: self.surface.0, hooks: self.hooks@, next: self.next as nat, stage: self.stage }
    }
}

/// A run of surface `surface` in `stage`, with `hooks` of which `next` ran.
pub open spec fn run_at(surface: u64, hooks: Seq<HookId>, next: nat, stage: CommitStage) -> CommitRunView {
    CommitRunView { surface, hooks, next, stage }
}

/// One step of a commit, on the run and the live surfaces before it: the run
/// and the surfaces after it, and the action it hands out.
///
/// Hooks of a phase come out one per step in list order. When the pre-commit
/// hooks are exhausted, the same step transfers the pending state and starts
/// the post-commit hooks, copied after the transfer. When those are
/// exhausted, the commit is reported, once. A surface that is gone by the
/// transfer ends the run with nothing transferred.
pub open spec fn commit_step(run: CommitRunView, surfaces: Map<u64, SurfaceView>) -> (
    CommitRunView,
    Map<u64, SurfaceView>,
    Option<CommitAction>,
) {
    let s = run.surface;
    match run.stage {
        CommitStage::PreCommit => if run.next < run.hooks.len() {
            (
                CommitRunView { next: run.next + 1, ..run },
                surfaces,
                Some(CommitAction::RunHook(run.hooks[run.next as int])),
            )
        } else if surfaces.contains_key(s) {
            let post = surfaces[s].hooks.post_commit;
            let after = surfaces.insert(s, committed_after(surfaces[s]));
            if post.len() > 0 {
                (run_at(s, post, 1, CommitStage::PostCommit), after, Some(CommitAction::RunHook(post[0])))
            } else {
                (run_at(s, post, 0, CommitStage::Done), after, Some(CommitAction::Committed))
            }
        } else {
            (CommitRunView { stage: CommitStage::Done, ..run }, surfaces, None)
        },
        CommitStage::PostCommit => if run.next < run.hooks.len() {
            (
                CommitRunView { next: run.next + 1, ..run },
                surfaces,
                Some(CommitAction::RunHook(run.hooks[run.next as int])),
            )
        } else {
            (CommitRunView { stage: CommitStage::Done, ..run }, surfaces, Some(CommitAction::Committed))
        },
        CommitStage::Done => (run, surfaces, None),
    }
}

impl Ecs {
    /// Starts a commit of `surface`: copies its pre-commit hooks, in
    /// registration order. `None` if the entity holds no surface.
    pub fn begin_commit(&mut self, surface: EntityData) -> (r: Option<CommitRun>)
        ensures
            r.is_some() == old(self)@.contains_key(surface.0),
            r.is_some() ==> r.unwrap()@ == run_at(
                surface.0,
                old(self)@[surface.0].hooks.pre_commit,
                0,
                CommitStage::PreCommit,
            ),
            final(self)@ == old(self)@,
    {
        match self.pre_commit_hooks(surface) {
            Some(hooks) => Some(CommitRun { surface, hooks, next: 0, stage: CommitStage::PreCommit }),
            None => None,
        }
    }

    /// Takes the next step of `run`; `None` once the run is over.
    pub fn next_commit_step(&mut self, run: &mut CommitRun) -> (r: Option<CommitAction>)
        ensures
            (final(run)@, final(self)@, r) == commit_step(old(run)@, old(self)@),
    {
        match run.stage {
            CommitStage::PreCommit => {
                if run.next < run.hooks.len() {
                    let hook = run.hooks[run.next];
                    run.next = run.next + 1;
                    Some(CommitAction::RunHook(hook))
                } else {
                    match self.commit(run.surface) {
                        Some(post) => {
                            if post.len() > 0 {
                                let hook = post[0];
                                run.hooks = post;
                                run.next = 1;
                                run.stage = CommitStage::PostCommit;
                                Some(CommitAction::RunHook(hook))
                            } else {
                                run.hooks = post;
                                run.next = 0;
                                run.stage = CommitStage::Done;
                                Some(CommitAction::Committed)
                            }
                        },
                        None => {
                            run.stage = CommitStage::Done;
                            None
                        },
                    }
                }
            },
            CommitStage::PostCommit => {
                if run.next < run.hooks.len() {
                    let hook = run.hooks[run.next];
                    run.next = run.next + 1;
                    Some(CommitAction::RunHook(hook))
                } else {
                    run.stage = CommitStage::Done;
                    Some(CommitAction::Committed)
                }
            },
            CommitStage::Done => None,
        }
    }
}

/// Hooks run in strict registration order, the transfer between the two
/// phases, and the commit is reported last: whatever the hooks do to the
/// surfaces between steps, the `k`-th step of a phase with hooks `h` hands
/// out `h[k]`; the step after the last pre-commit hook applies the pending
/// state and starts the post-commit hooks as they are after it; the step
/// after the last post-commit hook reports the commit; and a finished run
/// hands out nothing more.
pub proof fn lemma_commit_order(
    s: u64,
    pre: Seq<HookId>,
    post: Seq<HookId>,
    k: nat,
    surfaces: Map<u64, SurfaceView>,
)
    ensures
        k < pre.len() ==> commit_step(run_at(s, pre, k, CommitStage::PreCommit), surfaces) == (
            run_at(s, pre, k + 1, CommitStage::PreCommit),
            surfaces,
            Some(CommitAction::RunHook(pre[k as int])),
        ),
        surfaces.contains_key(s) ==> ({
            let (run, after, action) = commit_step(run_at(s, pre, pre.len(), CommitStage::PreCommit), surfaces);
            let hooks = surfaces[s].hooks.post_commit;
            &&& after == surfaces.insert(s, committed_after(surfaces[s]))
            &&& run.hooks == hooks
            &&& action == if hooks.len() > 0 {
                Some(CommitAction::RunHook(hooks[0]))
            } else {
                Some(CommitAction::Committed)
            }
            &&& hooks.len() > 0 ==> run == run_at(s, hooks, 1, CommitStage::PostCommit)
        }),
        k < post.len() ==> commit_step(run_at(s, post, k, CommitStage::PostCommit), surfaces) == (
            run_at(s, post, k + 1, CommitStage::PostCommit),
            surfaces,
            Some(CommitAction::RunHook(post[k as int])),
        ),
        commit_step(run_at(s, post, post.len(), CommitStage::PostCommit), surfaces) == (
            run_at(s, post, post.len(), CommitStage::Done),
            surfaces,
            Some(CommitAction::Committed),
        ),
        commit_step(run_at(s, post, k, CommitStage::Done), surfaces).2 == None::<CommitAction>,
{
}

} // verus!

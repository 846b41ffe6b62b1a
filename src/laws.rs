use vstd::prelude::*;

use crate::action::{requeue_secs_spec, Action, DEFAULT_REQUEUE_SECS, ERROR_BACKOFF_SECS};
use crate::engine::{answers, first_phase, first_step, settled, Deletion, Outcome, Pass, Phase, Step};
use crate::error::DatabricksKubeError;
use crate::finalizer::FinalizerState;

verus! {

/// The steps that pass `p` asks for as it is fed `os` in order, one step per
/// outcome; it stops at the first outcome that does not answer its phase.
pub open spec fn run<L, R: PartialEq>(p: Pass<R>, os: Seq<Outcome<L, R>>) -> Seq<Step<L>>
    decreases os.len(),
{
    if os.len() == 0 || !answers(p.phase, os[0]) {
        Seq::empty()
    } else {
        seq![p.next(os[0]).1] + run(p.next(os[0]).0, os.drop_first())
    }
}

/// The pass that `start` makes.
pub open spec fn started<R>(s: FinalizerState, expected: R, configured: Option<u64>) -> Pass<R> {
    Pass { phase: first_phase(s), expected, requeue_secs: requeue_secs_spec(configured) }
}

/// Every step of a whole pass over an object in state `s`: the first one, then
/// one for each outcome in `os`.
pub open spec fn trace<L, R: PartialEq>(
    s: FinalizerState,
    expected: R,
    configured: Option<u64>,
    os: Seq<Outcome<L, R>>,
) -> Seq<Step<L>> {
    seq![first_step::<L>(s)] + run(started(s, expected, configured), os)
}

/// Whether a step changes the remote object (delete aside).
pub open spec fn mutates_remote<L>(s: Step<L>) -> bool {
    s is Create || s is Update
}

/// The error that an outcome reports as a failure of the pass, if any. A
/// fetch that finds no remote identity is no failure.
pub open spec fn failure_of<L, R>(o: Outcome<L, R>) -> Option<DatabricksKubeError> {
    match o {
        Outcome::Fetched(Err(e)) => if e.is_identity_unset() {
            None
        } else {
            Some(e)
        },
        Outcome::FinalizerAdded(Err(e)) => Some(e),
        Outcome::Created(Err(e)) => Some(e),
        Outcome::Updated(Err(e)) => Some(e),
        Outcome::Replaced(Err(e)) => Some(e),
        Outcome::HookRan(Err(e)) => Some(e),
        Outcome::Deleted(Deletion::Failed(e)) => Some(e),
        Outcome::FinalizerRemoved(Err(e)) => Some(e),
        _ => None,
    }
}

/// Once past fetching, a pass neither creates nor updates the remote object.
proof fn lemma_no_mutation_after_fetch<L, R: PartialEq>(p: Pass<R>, os: Seq<Outcome<L, R>>)
    requires
        p.phase != Phase::Finalizing,
        p.phase != Phase::Fetching,
    ensures
        forall|i: int| 0 <= i < run(p, os).len() ==> !mutates_remote(#[trigger] run(p, os)[i]),
    decreases os.len(),
{
    if os.len() > 0 && answers(p.phase, os[0]) {
        let q = p.next(os[0]).0;
        let tail = run(q, os.drop_first());
        lemma_no_mutation_after_fetch(q, os.drop_first());
        assert(run(p, os) == seq![p.next(os[0]).1] + tail);
        assert forall|i: int| 0 <= i < run(p, os).len() implies !mutates_remote(#[trigger] run(p, os)[i]) by {
            if i > 0 {
                assert(run(p, os)[i] == tail[i - 1]);
            }
        }
    }
}

/// Outside the deleting phase, a pass never removes the finalizer.
proof fn lemma_no_unfinalize_outside_delete<L, R: PartialEq>(p: Pass<R>, os: Seq<Outcome<L, R>>)
    requires
        p.phase != Phase::Deleting,
    ensures
        forall|i: int| 0 <= i < run(p, os).len() ==> !(#[trigger] run(p, os)[i] is RemoveFinalizer),
    decreases os.len(),
{
    if os.len() > 0 && answers(p.phase, os[0]) {
        lemma_no_unfinalize_outside_delete(p.next(os[0]).0, os.drop_first());
    }
}

/// A finished pass asks for nothing more.
proof fn lemma_finished_runs_nothing<L, R: PartialEq>(p: Pass<R>, os: Seq<Outcome<L, R>>)
    requires
        p.phase == Phase::Finished,
    ensures
        run(p, os).len() == 0,
{
    if os.len() > 0 {
        assert(!answers(p.phase, os[0]));
    }
}

/// A pass creates or updates the remote object only for an object that holds
/// the engine's finalizer: one that held it when the pass began, or one to
/// which the pass first added it with success.
pub proof fn law_finalizer_before_remote_change<L, R: PartialEq>(
    s: FinalizerState,
    expected: R,
    configured: Option<u64>,
    os: Seq<Outcome<L, R>>,
    i: int,
)
    requires
        0 <= i < trace(s, expected, configured, os).len(),
        mutates_remote(trace(s, expected, configured, os)[i]),
    ensures
        s == FinalizerState::Finalized || (s == FinalizerState::NoFinalizer && i >= 2
            && os[0] matches Outcome::FinalizerAdded(Ok(_))),
{
    let p = started(s, expected, configured);
    let steps = run(p, os);
    assert(trace(s, expected, configured, os)[i] == steps[i - 1]);
    if s == FinalizerState::NoFinalizer {
        assert(os.len() > 0 && answers(p.phase, os[0]));
        let q = p.next(os[0]).0;
        let tail = run(q, os.drop_first());
        assert(steps == seq![p.next(os[0]).1] + tail);
        if os[0]->FinalizerAdded_0 is Err {
            lemma_finished_runs_nothing(q, os.drop_first());
        }
    } else if s != FinalizerState::Finalized {
        lemma_no_mutation_after_fetch(p, os);
    }
}

/// A resource with no recorded remote identity is created before anything
/// else happens to the remote side, the created value (with the identity the
/// remote side gave it) is what the cluster store is asked to keep, and the
/// pass never updates.
pub proof fn law_unset_identity_creates<L, R: PartialEq>(
    p: Pass<R>,
    created: L,
    os: Seq<Outcome<L, R>>,
)
    requires
        p.phase == Phase::Fetching,
    ensures
        ({
            let steps = run(
                p,
                seq![Outcome::Fetched(Err(DatabricksKubeError::IDUnsetError)), Outcome::Created(Ok(created))] + os,
            );
            &&& steps.len() >= 2
            &&& steps[0] == Step::<L>::Create
            &&& steps[1] == Step::Replace(created)
            &&& forall|i: int| 1 <= i < steps.len() ==> !mutates_remote(#[trigger] steps[i])
        }),
{
    let all = seq![Outcome::Fetched(Err(DatabricksKubeError::IDUnsetError)), Outcome::Created(Ok(created))] + os;
    let q = p.next(all[0]).0;
    let rest = all.drop_first();
    assert(rest =~= seq![Outcome::Created(Ok(created))] + os);
    assert(rest.drop_first() =~= os);
    let q2 = q.next(rest[0]).0;
    lemma_no_mutation_after_fetch(q2, os);
    let tail = run(q2, os);
    assert(run(q, rest) == seq![Step::Replace(created)] + tail);
    let steps = run(p, all);
    assert(steps == seq![Step::<L>::Create] + (seq![Step::Replace(created)] + tail));
    assert forall|i: int| 1 <= i < steps.len() implies !mutates_remote(#[trigger] steps[i]) by {
        if i > 1 {
            assert(steps[i] == tail[i - 2]);
        }
    }
}

/// A remote object that agrees with the local spec is never updated, nor
/// created.
pub proof fn law_in_sync_never_updates<L, R: PartialEq>(p: Pass<R>, remote: R, os: Seq<Outcome<L, R>>)
    requires
        p.phase == Phase::Fetching,
        p.in_sync(remote),
    ensures
        ({
            let steps = run(p, seq![Outcome::Fetched(Ok(remote))] + os);
            forall|i: int| 0 <= i < steps.len() ==> !mutates_remote(#[trigger] steps[i])
        }),
{
    let all = seq![Outcome::<L, R>::Fetched(Ok(remote))] + os;
    assert(all.drop_first() =~= os);
    let tail = run(p.next(all[0]).0, os);
    lemma_no_mutation_after_fetch(p.next(all[0]).0, os);
    let steps = run(p, all);
    assert(steps == seq![Step::<L>::EveryReconcile] + tail);
    assert forall|i: int| 0 <= i < steps.len() implies !mutates_remote(#[trigger] steps[i]) by {
        if i > 0 {
            assert(steps[i] == tail[i - 1]);
        }
    }
}

/// A remote object that differs from the local spec is updated exactly once,
/// and the cluster store is asked to keep exactly what the update returned.
pub proof fn law_drift_updates_once<L, R: PartialEq>(
    p: Pass<R>,
    remote: R,
    updated: L,
    os: Seq<Outcome<L, R>>,
)
    requires
        p.phase == Phase::Fetching,
        !p.in_sync(remote),
    ensures
        ({
            let steps = run(p, seq![Outcome::Fetched(Ok(remote)), Outcome::Updated(Ok(updated))] + os);
            &&& steps.len() >= 2
            &&& steps[0] == Step::<L>::Update
            &&& steps[1] == Step::Replace(updated)
            &&& forall|i: int| 1 <= i < steps.len() ==> !mutates_remote(#[trigger] steps[i])
        }),
{
    let all = seq![Outcome::Fetched(Ok(remote)), Outcome::Updated(Ok(updated))] + os;
    let q = p.next(all[0]).0;
    let rest = all.drop_first();
    assert(rest =~= seq![Outcome::Updated(Ok(updated))] + os);
    assert(rest.drop_first() =~= os);
    let q2 = q.next(rest[0]).0;
    lemma_no_mutation_after_fetch(q2, os);
    let tail = run(q2, os);
    assert(run(q, rest) == seq![Step::Replace(updated)] + tail);
    let steps = run(p, all);
    assert(steps == seq![Step::<L>::Update] + (seq![Step::Replace(updated)] + tail));
    assert forall|i: int| 1 <= i < steps.len() implies !mutates_remote(#[trigger] steps[i]) by {
        if i > 1 {
            assert(steps[i] == tail[i - 2]);
        }
    }
}

/// In any pass, the finalizer is removed only as the step right after a
/// remote delete was asked for and reported the object deleted or already
/// absent.
pub proof fn law_delete_before_unfinalize<L, R: PartialEq>(
    s: FinalizerState,
    expected: R,
    configured: Option<u64>,
    os: Seq<Outcome<L, R>>,
    i: int,
)
    requires
        0 <= i < trace(s, expected, configured, os).len(),
        trace(s, expected, configured, os)[i] is RemoveFinalizer,
    ensures
        i == 1,
        trace(s, expected, configured, os)[0] == Step::<L>::Delete,
        os[0] matches Outcome::Deleted(d) && !(d is Failed),
{
    let p = started(s, expected, configured);
    let steps = run(p, os);
    assert(trace(s, expected, configured, os)[i] == steps[i - 1]);
    if p.phase == Phase::Deleting {
        if i > 1 {
            lemma_no_unfinalize_outside_delete(p.next(os[0]).0, os.drop_first());
            assert(steps[i - 1] == run(p.next(os[0]).0, os.drop_first())[i - 2]);
        }
    } else {
        lemma_no_unfinalize_outside_delete(p, os);
    }
}

/// Deleting a remote object that is already gone is no failure: the pass
/// removes the finalizer and ends without error.
pub proof fn law_absent_delete_succeeds<L, R: PartialEq>(p: Pass<R>)
    requires
        p.phase == Phase::Deleting,
    ensures
        run(p, seq![Outcome::<L, R>::Deleted(Deletion::Absent), Outcome::FinalizerRemoved(Ok(()))])
            == seq![Step::<L>::RemoveFinalizer, Step::Done(Ok(Action::AwaitChange))],
{
    let os = seq![Outcome::<L, R>::Deleted(Deletion::Absent), Outcome::FinalizerRemoved(Ok(()))];
    let q = p.next(os[0]).0;
    assert(os.drop_first().drop_first() =~= Seq::<Outcome<L, R>>::empty());
    assert(run(q.next(os[1]).0, os.drop_first().drop_first()) =~= Seq::<Step<L>>::empty());
    assert(run(q, os.drop_first()) =~= seq![Step::<L>::Done(Ok(Action::AwaitChange))]);
    assert(run(p, os) =~= seq![Step::<L>::RemoveFinalizer, Step::Done(Ok(Action::AwaitChange))]);
}

/// Whatever step fails, the pass ends with that error and the controller
/// loop comes back after the fixed short backoff.
pub proof fn law_failure_backs_off<L, R: PartialEq>(p: Pass<R>, o: Outcome<L, R>, e: DatabricksKubeError)
    requires
        answers(p.phase, o),
        failure_of(o) == Some(e),
    ensures
        p.next(o).1 == Step::<L>::Done(Err(e)),
        p.next(o).0.phase == Phase::Finished,
        settled(Err(e)) == Action::RequeueAfter(ERROR_BACKOFF_SECS),
        ERROR_BACKOFF_SECS == 30,
{
}

/// A pass over a finalized object whose remote side agrees with it reads the
/// remote object, runs the hook, and comes back after the default interval,
/// with no remote change.
pub proof fn law_steady_state<L, R: PartialEq>(expected: R, remote: R)
    requires
        started::<R>(FinalizerState::Finalized, expected, None).in_sync(remote),
    ensures
        trace(
            FinalizerState::Finalized,
            expected,
            None,
            seq![Outcome::<L, R>::Fetched(Ok(remote)), Outcome::HookRan(Ok(()))],
        ) == seq![Step::<L>::Get, Step::EveryReconcile, Step::Done(Ok(Action::RequeueAfter(DEFAULT_REQUEUE_SECS)))],
        DEFAULT_REQUEUE_SECS == 300,
{
    let p = started(FinalizerState::Finalized, expected, None);
    let os = seq![Outcome::<L, R>::Fetched(Ok(remote)), Outcome::HookRan(Ok(()))];
    let q = p.next(os[0]).0;
    assert(os.drop_first().drop_first() =~= Seq::<Outcome<L, R>>::empty());
    assert(run(q.next(os[1]).0, os.drop_first().drop_first()) =~= Seq::<Step<L>>::empty());
    assert(run(q, os.drop_first()) =~= seq![Step::<L>::Done(Ok(Action::RequeueAfter(DEFAULT_REQUEUE_SECS)))]);
    assert(run(p, os) =~= seq![Step::<L>::EveryReconcile, Step::Done(Ok(Action::RequeueAfter(DEFAULT_REQUEUE_SECS)))]);
    assert(trace(FinalizerState::Finalized, expected, None, os)
        =~= seq![Step::<L>::Get, Step::EveryReconcile, Step::Done(Ok(Action::RequeueAfter(DEFAULT_REQUEUE_SECS)))]);
}

} // verus!

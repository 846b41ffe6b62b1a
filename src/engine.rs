use vstd::prelude::*;
use vstd::std_specs::cmp::PartialEqSpec;

use crate::action::{requeue_secs, requeue_secs_spec, Action, ERROR_BACKOFF_SECS};
use crate::error::DatabricksKubeError;
use crate::finalizer::FinalizerState;

verus! {

/// Where a pass stands, between two pieces of outside work.
#[derive(Clone, Copy, Debug, PartialEq, Eq, Structural)]
pub enum Phase {
    /// Waiting for the finalizer to be added in the cluster store.
    Finalizing,
    /// Waiting for the remote object.
    Fetching,
    /// Waiting for the remote create.
    Creating,
    /// Waiting for the remote update.
    Updating,
    /// Waiting for the cluster store to take the refreshed object.
    Persisting,
    /// Waiting for the per-pass hook.
    Hooking,
    /// Waiting for the remote delete.
    Deleting,
    /// Waiting for the finalizer to be removed in the cluster store.
    Unfinalizing,
    /// The pass is over.
    Finished,
}

/// What a remote delete reported.
#[derive(Clone, Debug)]
pub enum Deletion {
    /// The remote object was deleted.
    Removed,
    /// There was no remote object to delete.
    Absent,
    /// The remote call failed.
    Failed(DatabricksKubeError),
}

/// The result of the outside work that a pass asked for. `L` is the local
/// (cluster-stored) resource, `R` its remote representation.
pub enum Outcome<L, R> {
    /// The finalizer was added to the stored object, or not.
    FinalizerAdded(Result<(), DatabricksKubeError>),
    /// The remote object as read, or why it could not be.
    Fetched(Result<R, DatabricksKubeError>),
    /// The local resource refreshed by the remote create.
    Created(Result<L, DatabricksKubeError>),
    /// The local resource refreshed by the remote update.
    Updated(Result<L, DatabricksKubeError>),
    /// The cluster store took the replacement, or not.
    Replaced(Result<(), DatabricksKubeError>),
    /// The per-pass hook ran, or failed.
    HookRan(Result<(), DatabricksKubeError>),
    /// What the remote delete reported.
    Deleted(Deletion),
    /// The finalizer was removed from the stored object, or not.
    FinalizerRemoved(Result<(), DatabricksKubeError>),
}

/// Outside work that a pass asks for next, or the end of the pass.
#[derive(Debug)]
pub enum Step<L> {
    /// Add the engine's finalizer to the object in the cluster store.
    AddFinalizer,
    /// Read the remote object.
    Get,
    /// Create the remote object.
    Create,
    /// Push the local spec onto the remote object.
    Update,
    /// Replace the object in the cluster store with this value.
    Replace(L),
    /// Run the per-pass hook.
    EveryReconcile,
    /// Delete the remote object.
    Delete,
    /// Remove the engine's finalizer from the object in the cluster store.
    RemoveFinalizer,
    /// The pass is over, with this result.
    Done(Result<Action, DatabricksKubeError>),
}

/// Whether an outcome answers the work that a pass in `phase` waits for.
pub open spec fn answers<L, R>(phase: Phase, o: Outcome<L, R>) -> bool {
    match o {
        Outcome::FinalizerAdded(_) => phase == Phase::Finalizing,
        Outcome::Fetched(_) => phase == Phase::Fetching,
        Outcome::Created(_) => phase == Phase::Creating,
        Outcome::Updated(_) => phase == Phase::Updating,
        Outcome::Replaced(_) => phase == Phase::Persisting,
        Outcome::HookRan(_) => phase == Phase::Hooking,
        Outcome::Deleted(_) => phase == Phase::Deleting,
        Outcome::FinalizerRemoved(_) => phase == Phase::Unfinalizing,
    }
}

/// One reconcile pass over one object. `expected` is the remote
/// representation derived from the object's current spec.
pub struct Pass<R> {
    pub phase: Phase,
    pub expected: R,
    pub requeue_secs: u64,
}

/// The first phase of a pass over an object in state `s`.
pub open spec fn first_phase(s: FinalizerState) -> Phase {
    match s {
        FinalizerState::NoFinalizer => Phase::Finalizing,
        FinalizerState::Finalized => Phase::Fetching,
        FinalizerState::Deleting => Phase::Deleting,
        FinalizerState::Gone => Phase::Finished,
    }
}

/// The first step of a pass over an object in state `s`.
pub open spec fn first_step<L>(s: FinalizerState) -> Step<L> {
    match s {
        FinalizerState::NoFinalizer => Step::AddFinalizer,
        FinalizerState::Finalized => Step::Get,
        FinalizerState::Deleting => Step::Delete,
        FinalizerState::Gone => Step::Done(Ok(Action::AwaitChange)),
    }
}

impl<R> Pass<R> {
    pub open spec fn with_phase(self, phase: Phase) -> Pass<R> {
        Pass { phase, expected: self.expected, requeue_secs: self.requeue_secs }
    }

    /// Ends the pass with `r`.
    pub open spec fn finish<L>(self, r: Result<Action, DatabricksKubeError>) -> (Pass<R>, Step<L>) {
        (self.with_phase(Phase::Finished), Step::Done(r))
    }

    /// Moves to `phase` and asks for `s`.
    pub open spec fn go<L>(self, phase: Phase, s: Step<L>) -> (Pass<R>, Step<L>) {
        (self.with_phase(phase), s)
    }
}

impl<R: PartialEq> Pass<R> {
    /// Whether the remote object agrees with the local spec.
    pub open spec fn in_sync(&self, remote: R) -> bool {
        remote.eq_spec(&self.expected)
    }

    /// The pass after outcome `o`, and what it asks for next.
    pub open spec fn next<L>(self, o: Outcome<L, R>) -> (Pass<R>, Step<L>) {
        match o {
            Outcome::FinalizerAdded(Ok(())) => self.go(Phase::Fetching, Step::Get),
            Outcome::Fetched(Ok(remote)) => if self.in_sync(remote) {
                self.go(Phase::Hooking, Step::EveryReconcile)
            } else {
                self.go(Phase::Updating, Step::Update)
            },
            Outcome::Fetched(Err(e)) => if e.is_identity_unset() {
                self.go(Phase::Creating, Step::Create)
            } else {
                self.finish(Err(e))
            },
            Outcome::Created(Ok(l)) => self.go(Phase::Persisting, Step::Replace(l)),
            Outcome::Updated(Ok(l)) => self.go(Phase::Persisting, Step::Replace(l)),
            Outcome::Replaced(Ok(())) => self.go(Phase::Hooking, Step::EveryReconcile),
            Outcome::HookRan(Ok(())) => self.finish(Ok(Action::RequeueAfter(self.requeue_secs))),
            Outcome::Deleted(Deletion::Failed(e)) => self.finish(Err(e)),
            Outcome::Deleted(_) => self.go(Phase::Unfinalizing, Step::RemoveFinalizer),
            Outcome::FinalizerRemoved(Ok(())) => self.finish(Ok(Action::AwaitChange)),
            Outcome::FinalizerAdded(Err(e)) => self.finish(Err(e)),
            Outcome::Created(Err(e)) => self.finish(Err(e)),
            Outcome::Updated(Err(e)) => self.finish(Err(e)),
            Outcome::Replaced(Err(e)) => self.finish(Err(e)),
            Outcome::HookRan(Err(e)) => self.finish(Err(e)),
            Outcome::FinalizerRemoved(Err(e)) => self.finish(Err(e)),
        }
    }

    /// Starts a pass over an object in state `s`, whose spec gives the remote
    /// representation `expected`; `configured` is the operator's requeue
    /// interval, if it names one.
    pub fn start<L>(s: FinalizerState, expected: R, configured: Option<u64>) -> (r: (Pass<R>, Step<L>))
        ensures
            r.0.phase == first_phase(s),
            r.0.expected == expected,
            r.0.requeue_secs == requeue_secs_spec(configured),
            r.1 == first_step::<L>(s),
    {
        let secs = requeue_secs(configured);
        let (phase, step) = match s {
            FinalizerState::NoFinalizer => (Phase::Finalizing, Step::AddFinalizer),
            FinalizerState::Finalized => (Phase::Fetching, Step::Get),
            FinalizerState::Deleting => (Phase::Deleting, Step::Delete),
            FinalizerState::Gone => (Phase::Finished, Step::Done(Ok(Action::AwaitChange))),
        };
        (Pass { phase, expected, requeue_secs: secs }, step)
    }

    /// Whether `o` answers the work that this pass waits for.
    pub fn accepts<L>(&self, o: &Outcome<L, R>) -> (r: bool)
        ensures
            r == answers(self.phase, *o),
    {
        match o {
            Outcome::FinalizerAdded(_) => self.phase == Phase::Finalizing,
            Outcome::Fetched(_) => self.phase == Phase::Fetching,
            Outcome::Created(_) => self.phase == Phase::Creating,
            Outcome::Updated(_) => self.phase == Phase::Updating,
            Outcome::Replaced(_) => self.phase == Phase::Persisting,
            Outcome::HookRan(_) => self.phase == Phase::Hooking,
            Outcome::Deleted(_) => self.phase == Phase::Deleting,
            Outcome::FinalizerRemoved(_) => self.phase == Phase::Unfinalizing,
        }
    }

    /// Takes the outcome of the work this pass asked for and says what comes next.
    pub fn advance<L>(&mut self, o: Outcome<L, R>) -> (s: Step<L>)
        requires
            answers(old(self).phase, o),
            R::obeys_eq_spec(),
        ensures
            (*final(self), s) == old(self).next(o),
    {
        let (phase, step) = match o {
            Outcome::FinalizerAdded(Ok(())) => (Phase::Fetching, Step::Get),
            Outcome::Fetched(Ok(remote)) => if remote.eq(&self.expected) {
                (Phase::Hooking, Step::EveryReconcile)
            } else {
                (Phase::Updating, Step::Update)
            },
            Outcome::Fetched(Err(e)) => if e.identity_unset() {
                (Phase::Creating, Step::Create)
            } else {
                (Phase::Finished, Step::Done(Err(e)))
            },
            Outcome::Created(Ok(l)) => (Phase::Persisting, Step::Replace(l)),
            Outcome::Updated(Ok(l)) => (Phase::Persisting, Step::Replace(l)),
            Outcome::Replaced(Ok(())) => (Phase::Hooking, Step::EveryReconcile),
            Outcome::HookRan(Ok(())) => (Phase::Finished, Step::Done(Ok(Action::RequeueAfter(self.requeue_secs)))),
            Outcome::Deleted(Deletion::Failed(e)) => (Phase::Finished, Step::Done(Err(e))),
            Outcome::Deleted(_) => (Phase::Unfinalizing, Step::RemoveFinalizer),
            Outcome::FinalizerRemoved(Ok(())) => (Phase::Finished, Step::Done(Ok(Action::AwaitChange))),
            Outcome::FinalizerAdded(Err(e)) => (Phase::Finished, Step::Done(Err(e))),
            Outcome::Created(Err(e)) => (Phase::Finished, Step::Done(Err(e))),
            Outcome::Updated(Err(e)) => (Phase::Finished, Step::Done(Err(e))),
            Outcome::Replaced(Err(e)) => (Phase::Finished, Step::Done(Err(e))),
            Outcome::HookRan(Err(e)) => (Phase::Finished, Step::Done(Err(e))),
            Outcome::FinalizerRemoved(Err(e)) => (Phase::Finished, Step::Done(Err(e))),
        };
        self.phase = phase;
        step
    }
}

/// The action that the controller loop takes on a pass's result: the pass's
/// own action, or a fixed short backoff on any error.
pub open spec fn settled(r: Result<Action, DatabricksKubeError>) -> Action {
    match r {
        Ok(a) => a,
        Err(_) => Action::RequeueAfter(ERROR_BACKOFF_SECS),
    }
}

/// The controller loop's policy on a finished pass.
pub fn settle(r: &Result<Action, DatabricksKubeError>) -> (a: Action)
    ensures
        a == settled(*r),
{
    match r {
        Ok(a) => *a,
        Err(_) => Action::RequeueAfter(ERROR_BACKOFF_SECS),
    }
}

} // verus!

use vstd::prelude::*;

verus! {

/// Where an object stands in the finalizer protocol, read from the cluster store.
#[derive(Clone, Copy, Debug, PartialEq, Eq, Structural)]
pub enum FinalizerState {
    /// Not being deleted, and the engine's finalizer is not on it yet.
    NoFinalizer,
    /// Not being deleted, with the engine's finalizer on it.
    Finalized,
    /// Deletion requested while the finalizer holds it: the remote object must go first.
    Deleting,
    /// Deletion requested and the finalizer already removed: the store completes it.
    Gone,
}

/// The state that an object's finalizer list and deletion timestamp put it in.
pub open spec fn state_of(has_finalizer: bool, deletion_requested: bool) -> FinalizerState {
    if deletion_requested {
        if has_finalizer {
            FinalizerState::Deleting
        } else {
            FinalizerState::Gone
        }
    } else if has_finalizer {
        FinalizerState::Finalized
    } else {
        FinalizerState::NoFinalizer
    }
}

/// Classifies an observed object.
pub fn classify(has_finalizer: bool, deletion_requested: bool) -> (r: FinalizerState)
    ensures
        r == state_of(has_finalizer, deletion_requested),
{
    if deletion_requested {
        if has_finalizer {
            FinalizerState::Deleting
        } else {
            FinalizerState::Gone
        }
    } else if has_finalizer {
        FinalizerState::Finalized
    } else {
        FinalizerState::NoFinalizer
    }
}

} // verus!

use vstd::prelude::*;

verus! {

/// Seconds between steady-state passes when the operator configuration names none.
pub const DEFAULT_REQUEUE_SECS: u64 = 300;

/// Seconds before a failed pass is tried again.
pub const ERROR_BACKOFF_SECS: u64 = 30;

/// What the controller loop does next with one resource identity.
#[derive(Clone, Copy, Debug, PartialEq, Eq, Structural)]
pub enum Action {
    /// Run another pass after this many seconds.
    RequeueAfter(u64),
    /// Wait until the object changes in the cluster.
    AwaitChange,
}

/// The steady-state interval: the configured one, else the default.
pub open spec fn requeue_secs_spec(configured: Option<u64>) -> u64 {
    match configured {
        Some(s) => s,
        None => DEFAULT_REQUEUE_SECS,
    }
}

/// The interval between passes of a resource that is in sync.
pub fn requeue_secs(configured: Option<u64>) -> (r: u64)
    ensures
        r == requeue_secs_spec(configured),
{
    match configured {
        Some(s) => s,
        None => DEFAULT_REQUEUE_SECS,
    }
}

} // verus!

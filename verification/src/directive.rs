//! What a reconcile attempt tells the watch/queue runtime to do next.

use vstd::prelude::*;

verus! {

/// Seconds until the next periodic reconcile after a successful apply.
pub const DRIFT_CORRECTION_SECS: u64 = 10;

/// Seconds until the retry after a failed reconcile.
pub const ERROR_BACKOFF_SECS: u64 = 1;

/// When the runtime should reconcile the same resource again.
#[derive(Clone, Copy, Debug, PartialEq, Eq, Structural)]
pub enum SchedulingDirective {
    /// Reconcile again after this many seconds, even without a change.
    RequeueAfter(u64),
    /// Do nothing until the resource or one of its children changes.
    AwaitNextChange,
}

impl SchedulingDirective {
    /// The delay in seconds, if the directive asks for a requeue.
    pub fn requeue_seconds(&self) -> (secs: Option<u64>)
        ensures
            secs == match *self {
                SchedulingDirective::RequeueAfter(s) => Some(s),
                SchedulingDirective::AwaitNextChange => None,
            },
    {
        match self {
            SchedulingDirective::RequeueAfter(s) => Some(*s),
            SchedulingDirective::AwaitNextChange => None,
        }
    }
}

} // verus!

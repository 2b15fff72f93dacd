//! Controller of the Quake server kind.

use crate::directive::{SchedulingDirective, ERROR_BACKOFF_SECS};
use crate::error::Error;
use crate::quake_server::{QuakeServer, QUAKE_SERVER_KIND};
use crate::reconciler::{reconcile, resume, spec_reconcile, spec_resume, spec_unnamespaced};
use crate::step::{Pending, Reply, Step, StepView};
use crate::watch::WatchScope;
use vstd::prelude::*;

verus! {

/// The watch/reconcile loop of the Quake server kind.
pub struct QuakeServerController {}

impl QuakeServerController {
    /// Begins a reconcile attempt on a snapshot of a Quake server.  A
    /// snapshot without a namespace is rejected before anything is built;
    /// otherwise deletion intent alone decides between the apply path and
    /// the cleanup path.
    pub fn reconcile(quake_server: &QuakeServer) -> (step: Step)
        ensures
            step@ == spec_reconcile(quake_server),
            quake_server@.metadata.namespace is None ==> step@ == StepView::Return(
                Err(spec_unnamespaced(QUAKE_SERVER_KIND@)),
            ),
    {
        reconcile(quake_server)
    }

    /// Continues the attempt with the cluster's reply to the request that
    /// `pending` was handed out with.
    pub fn resume(quake_server: &QuakeServer, pending: Pending, reply: Reply) -> (step: Step)
        ensures
            step@ == spec_resume(quake_server, pending@, reply@),
    {
        resume(quake_server, pending, reply)
    }

    /// Where the loop watches for Quake servers: in the namespace `ns`, or
    /// in all of them if there is none.
    pub fn run(ns: Option<String>) -> (scope: WatchScope)
        ensures
            scope@ == WatchScope::spec_of(ns.deep_view()),
    {
        WatchScope::of(ns)
    }
}

/// Directive after a failed attempt on `_object`: whatever the error, try
/// again after a short, fixed delay.
pub fn error_policy(_object: &QuakeServer, error: &Error) -> (directive: SchedulingDirective)
    ensures
        directive == SchedulingDirective::RequeueAfter(ERROR_BACKOFF_SECS),
{
    SchedulingDirective::RequeueAfter(ERROR_BACKOFF_SECS)
}

} // verus!

//! A model of the cluster, to say what applying does to it.
//!
//! The model holds the child objects by kind, namespace and name, and
//! answers every request as a cluster does that fails for no reason of its
//! own.  [`settle`] runs the apply or cleanup path against it to the end.

use crate::applier::{spec_apply, spec_apply_all, spec_proceed};
use crate::child::{ChildKind, ChildObjectView};
use crate::directive::{SchedulingDirective, DRIFT_CORRECTION_SECS};
use crate::error::{ApiFailureView, ErrorView, NOT_FOUND};
use crate::laws::applying;
use crate::reconciler::{spec_apply_path, Managed};
use crate::step::{PathStageView, PathStepView, ReplyView, RequestView};
use vstd::prelude::*;

verus! {

/// HTTP status code with which the cluster API refuses to create an object
/// that exists.
pub const CONFLICT: u16 = 409;

/// What identifies a child object in the cluster.
pub struct ChildKey {
    pub kind: ChildKind,
    pub namespace: Seq<char>,
    pub name: Seq<char>,
}

/// The key under which the cluster holds `child`.
pub open spec fn key_of(child: ChildObjectView) -> ChildKey {
    ChildKey { kind: child.kind(), namespace: child.namespace(), name: child.name() }
}

/// The failure with which the model answers for an object that does not
/// exist.
pub open spec fn not_found() -> ApiFailureView {
    ApiFailureView { code: NOT_FOUND, reason: "NotFound"@, message: Seq::empty() }
}

/// The failure with which the model refuses to create an object that
/// exists.
pub open spec fn already_exists() -> ApiFailureView {
    ApiFailureView { code: CONFLICT, reason: "AlreadyExists"@, message: Seq::empty() }
}

/// What the cluster holds after `request`, and how it answers.  A merge
/// creates or replaces the child; a creation does not touch a child that
/// exists; the finalizers of the resource are not part of the model.
pub open spec fn serve(cluster: Map<ChildKey, ChildObjectView>, request: RequestView) -> (
    Map<ChildKey, ChildObjectView>,
    ReplyView,
) {
    match request {
        RequestView::Apply { child, .. } => (cluster.insert(key_of(child), child), ReplyView::Done),
        RequestView::Get { kind, namespace, name } => if cluster.dom().contains(
            ChildKey { kind, namespace, name },
        ) {
            (cluster, ReplyView::Done)
        } else {
            (cluster, ReplyView::Failed(not_found()))
        },
        RequestView::Create { child } => if cluster.dom().contains(key_of(child)) {
            (cluster, ReplyView::Failed(already_exists()))
        } else {
            (cluster.insert(key_of(child), child), ReplyView::Done)
        },
        RequestView::Delete { kind, namespace, name } => if cluster.dom().contains(
            ChildKey { kind, namespace, name },
        ) {
            (cluster.remove(ChildKey { kind, namespace, name }), ReplyView::Done)
        } else {
            (cluster, ReplyView::Failed(not_found()))
        },
        RequestView::AddFinalizer { .. } => (cluster, ReplyView::Done),
        RequestView::RemoveFinalizer { .. } => (cluster, ReplyView::Done),
    }
}

/// An upper bound on the requests that a path still makes from `step`.
pub open spec fn budget(step: PathStepView) -> nat {
    match step {
        PathStepView::Return(_) => 0,
        PathStepView::Call { state, .. } => 2 * state.queue.len() + match state.stage {
            PathStageView::Probing(_) => 2nat,
            _ => 1nat,
        },
    }
}

/// The outcome of the path that stands at `step`, and what the cluster
/// holds at its end, when every request is answered by the model.
pub open spec fn settle(step: PathStepView, cluster: Map<ChildKey, ChildObjectView>) -> (
    Result<SchedulingDirective, ErrorView>,
    Map<ChildKey, ChildObjectView>,
)
    decreases budget(step),
{
    match step {
        PathStepView::Return(outcome) => (outcome, cluster),
        PathStepView::Call { state, request } => {
            let (next, reply) = serve(cluster, request);
            settle(spec_proceed(state, reply), next)
        },
    }
}

/// Idempotence of applying.  Applying a child to a cluster that it has just
/// been applied to succeeds and changes nothing.  Applied to an empty
/// cluster, the child is all that the cluster holds afterwards.
pub proof fn lemma_apply_idempotent(
    child: ChildObjectView,
    field_manager: Seq<char>,
    cluster: Map<ChildKey, ChildObjectView>,
)
    ensures
        ({
            let once = settle(spec_apply(child, Seq::empty(), field_manager), cluster);
            let twice = settle(spec_apply(child, Seq::empty(), field_manager), once.1);
            &&& once.0 is Ok
            &&& twice.0 is Ok
            &&& twice.1 == once.1
            &&& cluster == Map::<ChildKey, ChildObjectView>::empty() ==> once.1 == cluster.insert(
                key_of(child),
                child,
            )
        }),
{
    let first = spec_apply(child, Seq::empty(), field_manager);
    let once = settle(first, cluster);
    let twice = settle(first, once.1);
    reveal_with_fuel(settle, 4);
    if child.kind() == ChildKind::Workload {
        if cluster.dom().contains(key_of(child)) {
            assert(once.1 == cluster);
        } else {
            assert(once.1 == cluster.insert(key_of(child), child));
        }
    } else {
        assert(once.1 == cluster.insert(key_of(child), child));
        assert(once.1.insert(key_of(child), child) =~= once.1);
    }
}

/// Against a cluster that fails for no reason of its own, applying any
/// children succeeds and ends with the periodic requeue.
pub proof fn lemma_apply_all_settles(
    queue: Seq<ChildObjectView>,
    field_manager: Seq<char>,
    cluster: Map<ChildKey, ChildObjectView>,
)
    ensures
        settle(spec_apply_all(queue, field_manager), cluster).0 == Ok::<
            SchedulingDirective,
            ErrorView,
        >(SchedulingDirective::RequeueAfter(DRIFT_CORRECTION_SECS)),
    decreases queue.len(),
{
    reveal_with_fuel(settle, 3);
    if queue.len() > 0 {
        let child = queue[0];
        let rest = queue.remove(0);
        if child.kind() == ChildKind::Workload {
            if cluster.dom().contains(key_of(child)) {
                lemma_apply_all_settles(rest, field_manager, cluster);
            } else {
                lemma_apply_all_settles(
                    rest,
                    field_manager,
                    cluster.insert(key_of(child), child),
                );
            }
        } else {
            lemma_apply_all_settles(rest, field_manager, cluster.insert(key_of(child), child));
        }
    }
}

/// Whether the path that stands at `step` is the apply path.
pub open spec fn on_apply_path(step: PathStepView) -> bool {
    step matches PathStepView::Call { state, request } ==> applying(state, request)
}

/// Applying never alters a workload that exists: whatever the apply path
/// does from `step`, the cluster holds at its end, under the key of every
/// workload that it held before, the object that it held before.
pub proof fn lemma_settle_keeps_workloads(
    step: PathStepView,
    cluster: Map<ChildKey, ChildObjectView>,
    key: ChildKey,
)
    requires
        on_apply_path(step),
        key.kind == ChildKind::Workload,
        cluster.dom().contains(key),
    ensures
        settle(step, cluster).1.dom().contains(key),
        settle(step, cluster).1[key] == cluster[key],
    decreases budget(step),
{
    match step {
        PathStepView::Return(_) => {},
        PathStepView::Call { state, request } => {
            let (next, reply) = serve(cluster, request);
            lemma_settle_keeps_workloads(spec_proceed(state, reply), next, key);
        },
    }
}

/// Workload create-once.  Where the cluster holds a workload, a run of the
/// apply path for any resource leaves that workload as it is.
pub proof fn lemma_workload_create_once<R: Managed>(
    resource: &R,
    cluster: Map<ChildKey, ChildObjectView>,
    key: ChildKey,
)
    requires
        key.kind == ChildKind::Workload,
        cluster.dom().contains(key),
    ensures
        settle(spec_apply_path(resource), cluster).1.dom().contains(key),
        settle(spec_apply_path(resource), cluster).1[key] == cluster[key],
{
    lemma_settle_keeps_workloads(spec_apply_path(resource), cluster, key);
}

} // verus!

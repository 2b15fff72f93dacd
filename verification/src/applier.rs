//! Applying and deleting child objects, one cluster call at a time.
//!
//! Network endpoints and configuration bundles are merged into the cluster on
//! every reconcile.  A workload is created once: if one of its name exists,
//! it is left as it is.  Deleting a child that is already gone succeeds.

use crate::child::{ChildKind, ChildObject, ChildObjectView, children_view};
use crate::directive::{SchedulingDirective, DRIFT_CORRECTION_SECS};
use crate::error::{ApiFailure, ApiFailureView, Error, ErrorView, NOT_FOUND};
use crate::step::{
    PathStage, PathStageView, PathState, PathStateView, PathStep, PathStepView, Reply, ReplyView,
    Request, RequestView,
};
use vstd::prelude::*;

verus! {

/// The error that a failed write of a child of `kind` surfaces as.
pub open spec fn spec_write_failure(kind: ChildKind, failure: ApiFailureView) -> ErrorView {
    match kind {
        ChildKind::ConfigBundle => ErrorView::ConfigMapCreationFailed(failure),
        ChildKind::NetworkEndpoint => ErrorView::ServiceCreationFailed(failure),
        ChildKind::Workload => ErrorView::KubeError(failure),
    }
}

/// The first call for `child`, with `rest` still to be applied after it: a
/// lookup for a workload, a declarative merge for anything else.
pub open spec fn spec_apply(
    child: ChildObjectView,
    rest: Seq<ChildObjectView>,
    field_manager: Seq<char>,
) -> PathStepView {
    if child.kind() == ChildKind::Workload {
        PathStepView::Call {
            state: PathStateView { stage: PathStageView::Probing(child), queue: rest, field_manager },
            request: RequestView::Get {
                kind: ChildKind::Workload,
                namespace: child.namespace(),
                name: child.name(),
            },
        }
    } else {
        PathStepView::Call {
            state: PathStateView {
                stage: PathStageView::Patching(child.kind()),
                queue: rest,
                field_manager,
            },
            request: RequestView::Apply { child, field_manager },
        }
    }
}

/// What follows once everything before `queue` has been applied: the first
/// call for its first child, or the periodic requeue when nothing is left.
pub open spec fn spec_apply_all(queue: Seq<ChildObjectView>, field_manager: Seq<char>) -> PathStepView {
    if queue.len() == 0 {
        PathStepView::Return(Ok(SchedulingDirective::RequeueAfter(DRIFT_CORRECTION_SECS)))
    } else {
        spec_apply(queue[0], queue.remove(0), field_manager)
    }
}

/// The call that deletes the named child.
pub open spec fn spec_delete_by_name(
    kind: ChildKind,
    namespace: Seq<char>,
    name: Seq<char>,
    field_manager: Seq<char>,
) -> PathStepView {
    PathStepView::Call {
        state: PathStateView {
            stage: PathStageView::Deleting,
            queue: Seq::empty(),
            field_manager,
        },
        request: RequestView::Delete { kind, namespace, name },
    }
}

/// The move that follows `reply` in `state`.
pub open spec fn spec_proceed(state: PathStateView, reply: ReplyView) -> PathStepView {
    match (state.stage, reply) {
        (PathStageView::Patching(_), ReplyView::Done) => spec_apply_all(
            state.queue,
            state.field_manager,
        ),
        (PathStageView::Patching(kind), ReplyView::Failed(f)) => PathStepView::Return(
            Err(spec_write_failure(kind, f)),
        ),
        (PathStageView::Probing(_), ReplyView::Done) => spec_apply_all(
            state.queue,
            state.field_manager,
        ),
        (PathStageView::Probing(workload), ReplyView::Failed(f)) => if f.code == NOT_FOUND {
            PathStepView::Call {
                state: PathStateView {
                    stage: PathStageView::Creating,
                    queue: state.queue,
                    field_manager: state.field_manager,
                },
                request: RequestView::Create { child: workload },
            }
        } else {
            PathStepView::Return(Err(ErrorView::KubeError(f)))
        },
        (PathStageView::Creating, ReplyView::Done) => spec_apply_all(
            state.queue,
            state.field_manager,
        ),
        (PathStageView::Creating, ReplyView::Failed(f)) => PathStepView::Return(
            Err(spec_write_failure(ChildKind::Workload, f)),
        ),
        (PathStageView::Deleting, ReplyView::Done) => PathStepView::Return(
            Ok(SchedulingDirective::AwaitNextChange),
        ),
        (PathStageView::Deleting, ReplyView::Failed(f)) => if f.code == NOT_FOUND {
            PathStepView::Return(Ok(SchedulingDirective::AwaitNextChange))
        } else {
            PathStepView::Return(Err(ErrorView::KubeError(f)))
        },
    }
}

/// Wraps the failure of a write of a child of `kind` into the error that the
/// attempt ends with.
pub fn write_failure(kind: ChildKind, failure: ApiFailure) -> (error: Error)
    ensures
        error@ == spec_write_failure(kind, failure@),
{
    match kind {
        ChildKind::ConfigBundle => Error::ConfigMapCreationFailed(failure),
        ChildKind::NetworkEndpoint => Error::ServiceCreationFailed(failure),
        ChildKind::Workload => Error::KubeError(failure),
    }
}

/// Begins applying `child`; `rest` is applied after it, in order.
pub fn apply(child: ChildObject, rest: Vec<ChildObject>, field_manager: String) -> (step: PathStep)
    ensures
        step@ == spec_apply(child@, children_view(rest@), field_manager@),
{
    match child.kind() {
        ChildKind::Workload => {
            let request = Request::Get {
                kind: ChildKind::Workload,
                namespace: child.namespace(),
                name: child.name(),
            };
            PathStep::Call {
                state: PathState { stage: PathStage::Probing(child), queue: rest, field_manager },
                request,
            }
        },
        kind => {
            let manager = field_manager.clone();
            PathStep::Call {
                state: PathState { stage: PathStage::Patching(kind), queue: rest, field_manager },
                request: Request::Apply { child, field_manager: manager },
            }
        },
    }
}

/// Applies the children of `queue` in order; ends with the periodic requeue
/// once none is left.
pub fn apply_all(queue: Vec<ChildObject>, field_manager: String) -> (step: PathStep)
    ensures
        step@ == spec_apply_all(children_view(queue@), field_manager@),
{
    let mut queue = queue;
    if queue.len() == 0 {
        PathStep::Return(Ok(SchedulingDirective::RequeueAfter(DRIFT_CORRECTION_SECS)))
    } else {
        let ghost before = queue@;
        let child = queue.remove(0);
        assert(children_view(queue@) =~= children_view(before).remove(0));
        apply(child, queue, field_manager)
    }
}

/// Begins deleting the named child.
pub fn delete_by_name(kind: ChildKind, namespace: String, name: String, field_manager: String) -> (step:
    PathStep)
    ensures
        step@ == spec_delete_by_name(kind, namespace@, name@, field_manager@),
{
    let queue: Vec<ChildObject> = Vec::new();
    assert(children_view(queue@) =~= Seq::empty());
    PathStep::Call {
        state: PathState { stage: PathStage::Deleting, queue, field_manager },
        request: Request::Delete { kind, namespace, name },
    }
}

/// Continues the apply or cleanup path with the cluster's reply to the
/// request that `state` was handed out with.
pub fn proceed(state: PathState, reply: Reply) -> (step: PathStep)
    ensures
        step@ == spec_proceed(state@, reply@),
{
    let PathState { stage, queue, field_manager } = state;
    match (stage, reply) {
        (PathStage::Patching(_), Reply::Done) => apply_all(queue, field_manager),
        (PathStage::Patching(kind), Reply::Failed(f)) => PathStep::Return(
            Err(write_failure(kind, f)),
        ),
        (PathStage::Probing(_), Reply::Done) => apply_all(queue, field_manager),
        (PathStage::Probing(workload), Reply::Failed(f)) => {
            if f.is_not_found() {
                PathStep::Call {
                    state: PathState { stage: PathStage::Creating, queue, field_manager },
                    request: Request::Create { child: workload },
                }
            } else {
                PathStep::Return(Err(Error::KubeError(f)))
            }
        },
        (PathStage::Creating, Reply::Done) => apply_all(queue, field_manager),
        (PathStage::Creating, Reply::Failed(f)) => PathStep::Return(
            Err(write_failure(ChildKind::Workload, f)),
        ),
        (PathStage::Deleting, Reply::Done) => PathStep::Return(
            Ok(SchedulingDirective::AwaitNextChange),
        ),
        (PathStage::Deleting, Reply::Failed(f)) => {
            if f.is_not_found() {
                PathStep::Return(Ok(SchedulingDirective::AwaitNextChange))
            } else {
                PathStep::Return(Err(Error::KubeError(f)))
            }
        },
    }
}

} // verus!

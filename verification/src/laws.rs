//! What holds of every reconcile attempt, whatever the cluster answers.
//!
//! An attempt is the sequence of moves that [`reconcile`] and [`resume`]
//! make on one snapshot of a resource.  [`spec_attempt`] follows it through
//! any sequence of replies; the laws below speak of every such sequence, and
//! so of every attempt in every series of attempts.
//!
//! [`reconcile`]: crate::reconciler::reconcile
//! [`resume`]: crate::reconciler::resume

use crate::child::ChildKind;
use crate::directive::{SchedulingDirective, DRIFT_CORRECTION_SECS};
use crate::error::NOT_FOUND;
use crate::finalizer::{spec_guard_apply, spec_guard_cleanup};
use crate::meta::{first_index_of, lemma_first_index_of};
use crate::reconciler::{
    spec_apply_path, spec_cleanup_path, spec_reconcile, spec_resume, spec_unnamespaced, Managed,
};
use crate::step::{
    PathStageView, PathStateView, PathStepView, PendingView, ReplyView, RequestView, StepView,
};
use vstd::prelude::*;

verus! {

/// The two paths of a reconcile.
#[derive(Clone, Copy, Debug, PartialEq, Eq, Structural)]
pub enum Path {
    Apply,
    Cleanup,
}

/// The path that a request belongs to.  The writes of the finalizer token
/// belong to neither.
pub open spec fn path_of(request: RequestView) -> Option<Path> {
    match request {
        RequestView::Apply { .. } => Some(Path::Apply),
        RequestView::Get { .. } => Some(Path::Apply),
        RequestView::Create { .. } => Some(Path::Apply),
        RequestView::Delete { .. } => Some(Path::Cleanup),
        RequestView::AddFinalizer { .. } => None,
        RequestView::RemoveFinalizer { .. } => None,
    }
}

/// The path that the deletion intent of `resource` calls for.
pub open spec fn mode<R: Managed>(resource: &R) -> Path {
    if resource.spec_metadata().deletion_requested {
        Path::Cleanup
    } else {
        Path::Apply
    }
}

/// The request that a move hands out, if it hands out one.
pub open spec fn request_of(step: StepView) -> Option<RequestView> {
    match step {
        StepView::Call { request, .. } => Some(request),
        StepView::Return(_) => None,
    }
}

/// Whether `request` is the deletion of a workload.
pub open spec fn deletes_workload(request: RequestView) -> bool {
    match request {
        RequestView::Delete { kind, .. } => kind == ChildKind::Workload,
        _ => false,
    }
}

/// Whether `reply` reports that the deleted object is gone: it was deleted
/// now, or it did not exist.
pub open spec fn gone(reply: ReplyView) -> bool {
    match reply {
        ReplyView::Done => true,
        ReplyView::Failed(f) => f.code == NOT_FOUND,
    }
}

/// The move at which an attempt on `resource` stands once the cluster has
/// answered its requests with `replies`, in order.  An attempt that has
/// ended stays ended.
pub open spec fn spec_attempt<R: Managed>(resource: &R, replies: Seq<ReplyView>) -> StepView
    decreases replies.len(),
{
    if replies.len() == 0 {
        spec_reconcile(resource)
    } else {
        match spec_attempt(resource, replies.drop_last()) {
            StepView::Call { state, request } => spec_resume(resource, state, replies.last()),
            StepView::Return(outcome) => StepView::Return(outcome),
        }
    }
}

/// Whether the request of a move of the apply path is the one that its
/// state stands for.
pub open spec fn applying(state: PathStateView, request: RequestView) -> bool {
    match state.stage {
        PathStageView::Patching(kind) => request matches RequestView::Apply { child, .. }
            && child.kind() == kind && kind != ChildKind::Workload,
        PathStageView::Probing(workload) => request matches RequestView::Get {
            kind,
            namespace,
            name,
        } && kind == ChildKind::Workload && workload.kind() == ChildKind::Workload && namespace
            == workload.namespace() && name == workload.name(),
        PathStageView::Creating => request matches RequestView::Create { child }
            && child.kind() == ChildKind::Workload,
        PathStageView::Deleting => false,
    }
}

/// Whether a move fits the snapshot it was made on: its state, its request
/// and the deletion intent of the resource go together.
pub open spec fn coherent<R: Managed>(resource: &R, step: StepView) -> bool {
    let deleting = resource.spec_metadata().deletion_requested;
    match step {
        StepView::Return(_) => true,
        StepView::Call { state, request } => match state {
            PendingView::AddingFinalizer => !deleting && request is AddFinalizer,
            PendingView::Applying(path) => !deleting && applying(path, request),
            PendingView::Cleaning { path, .. } => deleting && path.stage is Deleting
                && deletes_workload(request),
            PendingView::RemovingFinalizer => deleting && request is RemoveFinalizer,
        },
    }
}

/// Every move of the apply path from its start is one of applying.
proof fn lemma_apply_path_coherent<R: Managed>(resource: &R)
    ensures
        spec_apply_path(resource) matches PathStepView::Call { state, request } ==> applying(
            state,
            request,
        ),
{
}

/// Every move of an attempt fits the snapshot it was made on.
pub proof fn lemma_attempt_coherent<R: Managed>(resource: &R, replies: Seq<ReplyView>)
    ensures
        coherent(resource, spec_attempt(resource, replies)),
    decreases replies.len(),
{
    lemma_apply_path_coherent(resource);
    if replies.len() == 0 {
        lemma_first_index_of(resource.spec_metadata().finalizers, R::spec_finalizer());
    } else {
        lemma_attempt_coherent(resource, replies.drop_last());
    }
}

/// Finalizer safety.  The token is removed only after the cleanup has
/// succeeded: wherever an attempt asks to remove the token, the resource is
/// being deleted, the request before was the deletion of the workload, and
/// the cluster has answered that the workload is gone.
pub proof fn lemma_token_removed_only_after_cleanup<R: Managed>(
    resource: &R,
    replies: Seq<ReplyView>,
)
    requires
        request_of(spec_attempt(resource, replies)) matches Some(request)
            && request is RemoveFinalizer,
    ensures
        resource.spec_metadata().deletion_requested,
        replies.len() > 0,
        request_of(spec_attempt(resource, replies.drop_last())) matches Some(request)
            && deletes_workload(request),
        gone(replies.last()),
{
    lemma_attempt_coherent(resource, replies);
    if replies.len() == 0 {
        lemma_first_index_of(resource.spec_metadata().finalizers, R::spec_finalizer());
    } else {
        lemma_attempt_coherent(resource, replies.drop_last());
    }
}

/// Once the cluster has answered that the workload is gone, the attempt
/// asks to remove the token, and nothing else.
pub proof fn lemma_cleanup_releases_token<R: Managed>(resource: &R, replies: Seq<ReplyView>)
    requires
        replies.len() > 0,
        request_of(spec_attempt(resource, replies.drop_last())) matches Some(request)
            && request is Delete,
    ensures
        gone(replies.last()) <==> (request_of(spec_attempt(resource, replies)) matches Some(
            request,
        ) && request is RemoveFinalizer),
        !gone(replies.last()) ==> spec_attempt(resource, replies) matches StepView::Return(
            Err(_),
        ),
{
    lemma_attempt_coherent(resource, replies.drop_last());
}

/// No double mode.  Deletion intent alone decides the path: an attempt on a
/// resource that is not being deleted never makes a request of the cleanup
/// path, and one on a resource that is being deleted never makes a request
/// of the apply path.
pub proof fn lemma_single_mode<R: Managed>(resource: &R, replies: Seq<ReplyView>)
    ensures
        request_of(spec_attempt(resource, replies)) matches Some(request) ==> (path_of(
            request,
        ) matches Some(path) ==> path == mode(resource)),
{
    lemma_attempt_coherent(resource, replies);
}

/// An attempt on a resource with a namespace and a name that holds the
/// token begins with the path that its deletion intent calls for.
pub proof fn lemma_mode_entered<R: Managed>(resource: &R)
    requires
        resource.spec_metadata().namespace is Some,
        resource.spec_metadata().name is Some,
        first_index_of(resource.spec_metadata().finalizers, R::spec_finalizer()) is Some,
    ensures
        mode(resource) == Path::Apply ==> spec_reconcile(resource) == spec_guard_apply(
            spec_apply_path(resource),
        ),
        mode(resource) == Path::Cleanup ==> spec_reconcile(resource) == spec_guard_cleanup(
            spec_cleanup_path(resource),
            resource.spec_metadata().namespace->Some_0,
            resource.spec_metadata().name->Some_0,
            first_index_of(
                resource.spec_metadata().finalizers,
                R::spec_finalizer(),
            )->Some_0 as usize,
            R::spec_finalizer(),
        ),
{
}

/// An attempt on a resource that is not being deleted and does not hold the
/// token asks for the token first, and enters the apply path once the token
/// has been written.
pub proof fn lemma_token_added_before_apply<R: Managed>(resource: &R, reply: ReplyView)
    requires
        resource.spec_metadata().namespace is Some,
        resource.spec_metadata().name is Some,
        !resource.spec_metadata().deletion_requested,
        first_index_of(resource.spec_metadata().finalizers, R::spec_finalizer()) is None,
    ensures
        request_of(spec_attempt(resource, Seq::empty())) matches Some(request)
            && request is AddFinalizer,
        reply is Done ==> spec_attempt(resource, seq![reply]) == spec_guard_apply(
            spec_apply_path(resource),
        ),
        reply is Failed ==> spec_attempt(resource, seq![reply]) matches StepView::Return(Err(_)),
{
    let replies = seq![reply];
    assert(replies.drop_last() =~= Seq::empty());
    assert(replies.last() == reply);
    assert(spec_attempt(resource, replies.drop_last()) == spec_reconcile(resource));
}

/// A failed write ends the attempt with an error: nothing that was to follow
/// it is requested.
pub proof fn lemma_failed_write_ends_attempt<R: Managed>(resource: &R, replies: Seq<ReplyView>)
    requires
        replies.len() > 0,
        request_of(spec_attempt(resource, replies.drop_last())) matches Some(request) && !(request
            is Get) && !(request is Delete),
        replies.last() is Failed,
    ensures
        spec_attempt(resource, replies) matches StepView::Return(Err(_)),
{
    lemma_attempt_coherent(resource, replies.drop_last());
}

/// An attempt that has ended makes no further move, whatever is reported to
/// it.
pub proof fn lemma_ended_stays_ended<R: Managed>(
    resource: &R,
    replies: Seq<ReplyView>,
    later: Seq<ReplyView>,
)
    requires
        spec_attempt(resource, replies) is Return,
    ensures
        spec_attempt(resource, replies + later) == spec_attempt(resource, replies),
    decreases later.len(),
{
    if later.len() == 0 {
        assert(replies + later =~= replies);
    } else {
        lemma_ended_stays_ended(resource, replies, later.drop_last());
        assert((replies + later).drop_last() =~= replies + later.drop_last());
    }
}

/// An attempt that succeeds asks for the periodic requeue if the resource
/// is not being deleted, and for nothing more if it is.
pub proof fn lemma_directive_by_mode<R: Managed>(resource: &R, replies: Seq<ReplyView>)
    ensures
        spec_attempt(resource, replies) matches StepView::Return(Ok(directive)) ==> directive
            == if resource.spec_metadata().deletion_requested {
            SchedulingDirective::AwaitNextChange
        } else {
            SchedulingDirective::RequeueAfter(DRIFT_CORRECTION_SECS)
        },
    decreases replies.len(),
{
    if replies.len() == 0 {
        lemma_first_index_of(resource.spec_metadata().finalizers, R::spec_finalizer());
    } else {
        lemma_directive_by_mode(resource, replies.drop_last());
        lemma_attempt_coherent(resource, replies.drop_last());
    }
}

/// Namespace rejection.  An attempt on a resource without a namespace ends
/// at once with a user-input error, whatever else the resource declares: no
/// child is built and no request is made.
pub proof fn lemma_namespace_rejection<R: Managed>(resource: &R, replies: Seq<ReplyView>)
    requires
        resource.spec_metadata().namespace is None,
    ensures
        spec_attempt(resource, replies) == StepView::Return(
            Err(spec_unnamespaced(R::spec_kind())),
        ),
        spec_unnamespaced(R::spec_kind()) is UserInputError,
    decreases replies.len(),
{
    if replies.len() > 0 {
        lemma_namespace_rejection(resource, replies.drop_last());
    }
}

} // verus!

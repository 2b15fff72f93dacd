//! Finalizer lifecycle: which path a reconcile takes, and what holds the
//! resource in place until its cleanup has succeeded.
//!
//! While the engine's token is among the finalizers of a resource, the
//! platform does not complete the deletion of that resource.  The engine adds
//! the token before it first applies anything, and removes it only after the
//! cleanup path has succeeded.

use crate::error::{Error, ErrorView, FinalizerError, FinalizerErrorView};
use crate::meta::{first_index_of, Metadata, MetadataView};
use crate::step::{
    PathStep, PathStepView, Pending, PendingView, Request, RequestView, Step, StepView,
};
use vstd::prelude::*;

verus! {

/// What a reconcile does with a resource, by its deletion intent and by
/// whether it holds the engine's token.
#[derive(Clone, Copy, Debug, PartialEq, Eq, Structural)]
pub enum Decision {
    /// Not being deleted, token held: run the apply path.
    Apply,
    /// Not being deleted, token missing: add the token, then run the apply
    /// path.
    AddThenApply,
    /// Being deleted, token held at this index: run the cleanup path, then
    /// remove the token.
    Cleanup(usize),
    /// Being deleted, token gone: cleanup is already done.
    Nothing,
}

pub open spec fn spec_decide(meta: MetadataView, token: Seq<char>) -> Decision {
    match (first_index_of(meta.finalizers, token), meta.deletion_requested) {
        (Some(_), false) => Decision::Apply,
        (None, false) => Decision::AddThenApply,
        (Some(index), true) => Decision::Cleanup(index as usize),
        (None, true) => Decision::Nothing,
    }
}

/// Decides the path for the resource described by `meta`.
pub fn decide(meta: &Metadata, token: &String) -> (decision: Decision)
    ensures
        decision == spec_decide(meta@, token@),
{
    match (meta.finalizer_index(token), meta.deletion_requested) {
        (Some(_), false) => Decision::Apply,
        (None, false) => Decision::AddThenApply,
        (Some(index), true) => Decision::Cleanup(index),
        (None, true) => Decision::Nothing,
    }
}

/// A move of the apply path, seen from the attempt: its calls are passed
/// on, its outcome ends the attempt, a failure marked as one of applying.
pub open spec fn spec_guard_apply(step: PathStepView) -> StepView {
    match step {
        PathStepView::Call { state, request } => StepView::Call {
            state: PendingView::Applying(state),
            request,
        },
        PathStepView::Return(Ok(directive)) => StepView::Return(Ok(directive)),
        PathStepView::Return(Err(e)) => StepView::Return(
            Err(ErrorView::FinalizerError(Box::new(FinalizerErrorView::ApplyFailed(e)))),
        ),
    }
}

/// A move of the cleanup path, seen from the attempt: its calls are passed
/// on, its success is followed by the removal of the token, its failure ends
/// the attempt with the token in place.
pub open spec fn spec_guard_cleanup(
    step: PathStepView,
    namespace: Seq<char>,
    name: Seq<char>,
    index: usize,
    token: Seq<char>,
) -> StepView {
    match step {
        PathStepView::Call { state, request } => StepView::Call {
            state: PendingView::Cleaning { path: state, namespace, name, index, token },
            request,
        },
        PathStepView::Return(Ok(_)) => StepView::Call {
            state: PendingView::RemovingFinalizer,
            request: RequestView::RemoveFinalizer { namespace, name, index, token },
        },
        PathStepView::Return(Err(e)) => StepView::Return(
            Err(ErrorView::FinalizerError(Box::new(FinalizerErrorView::CleanupFailed(e)))),
        ),
    }
}

/// Passes a move of the apply path on to the caller of the attempt.
pub fn guard_apply(step: PathStep) -> (guarded: Step)
    ensures
        guarded@ == spec_guard_apply(step@),
{
    match step {
        PathStep::Call { state, request } => Step::Call { state: Pending::Applying(state), request },
        PathStep::Return(Ok(directive)) => Step::Return(Ok(directive)),
        PathStep::Return(Err(e)) => Step::Return(
            Err(Error::FinalizerError(Box::new(FinalizerError::ApplyFailed(e)))),
        ),
    }
}

/// Passes a move of the cleanup path on to the caller of the attempt, and
/// releases the token once the path has succeeded.
pub fn guard_cleanup(step: PathStep, namespace: String, name: String, index: usize, token: String) -> (guarded:
    Step)
    ensures
        guarded@ == spec_guard_cleanup(step@, namespace@, name@, index, token@),
{
    match step {
        PathStep::Call { state, request } => Step::Call {
            state: Pending::Cleaning { path: state, namespace, name, index, token },
            request,
        },
        PathStep::Return(Ok(_)) => Step::Call {
            state: Pending::RemovingFinalizer,
            request: Request::RemoveFinalizer { namespace, name, index, token },
        },
        PathStep::Return(Err(e)) => Step::Return(
            Err(Error::FinalizerError(Box::new(FinalizerError::CleanupFailed(e)))),
        ),
    }
}

/// The end of an attempt on a resource without a name, whose finalizers
/// cannot be written.
pub open spec fn spec_unnamed() -> StepView {
    StepView::Return(Err(ErrorView::FinalizerError(Box::new(FinalizerErrorView::UnnamedObject))))
}

/// Ends the attempt on a resource without a name.
pub fn unnamed() -> (step: Step)
    ensures
        step@ == spec_unnamed(),
{
    Step::Return(Err(Error::FinalizerError(Box::new(FinalizerError::UnnamedObject))))
}

} // verus!

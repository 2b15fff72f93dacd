//! The reconciler, written once for every kind of resource.
//!
//! A kind plugs in through [`Managed`]: its metadata, its names, and the
//! builder of its children.  [`reconcile`] begins an attempt on a snapshot of
//! a resource and [`resume`] continues it with each reply of the cluster.

use crate::applier::{
    apply_all, delete_by_name, proceed, spec_apply_all, spec_delete_by_name, spec_proceed,
};
use crate::child::{ChildKind, ChildObject, ChildObjectView, children_view};
use crate::directive::SchedulingDirective;
use crate::error::{Error, ErrorView, FinalizerError, FinalizerErrorView};
use crate::finalizer::{
    decide, guard_apply, guard_cleanup, spec_decide, spec_guard_apply, spec_guard_cleanup,
    spec_unnamed, unnamed, Decision,
};
use crate::meta::{Metadata, MetadataView};
use crate::step::{
    PathStep, PathStepView, Pending, PendingView, Reply, ReplyView, Request, RequestView, Step,
    StepView,
};
use vstd::prelude::*;
use vstd::string::*;

verus! {

/// View of what a builder returns.
pub open spec fn built_view(built: Result<Vec<ChildObject>, Error>) -> Result<
    Seq<ChildObjectView>,
    ErrorView,
> {
    match built {
        Ok(children) => Ok(children_view(children@)),
        Err(e) => Err(e@),
    }
}

/// What a kind of desired-state resource provides to the engine.
pub trait Managed: Sized {
    spec fn spec_metadata(&self) -> MetadataView;

    /// Metadata of the snapshot.
    fn metadata(&self) -> (meta: &Metadata)
        ensures
            meta@ == self.spec_metadata(),
    ;

    spec fn spec_kind() -> Seq<char>;

    /// Name of the kind, as users write it.
    fn kind() -> (kind: String)
        ensures
            kind@ == Self::spec_kind(),
    ;

    spec fn spec_finalizer() -> Seq<char>;

    /// The finalizer token that the engine holds on resources of this kind.
    fn finalizer() -> (token: String)
        ensures
            token@ == Self::spec_finalizer(),
    ;

    spec fn spec_field_manager() -> Seq<char>;

    /// The identity under which children of this kind are merged into the
    /// cluster.
    fn field_manager() -> (manager: String)
        ensures
            manager@ == Self::spec_field_manager(),
    ;

    spec fn spec_children(&self) -> Result<Seq<ChildObjectView>, ErrorView>;

    /// Builds the children that should exist for the resource, in the order
    /// in which they are to be applied.
    fn children(&self) -> (built: Result<Vec<ChildObject>, Error>)
        ensures
            built_view(built) == self.spec_children(),
    ;
}

/// Text of the error for a resource of `kind` that has no namespace.
pub open spec fn spec_unnamespaced_message(kind: Seq<char>) -> Seq<char> {
    "Expected "@ + kind
        + " resource to be namespaced. Can't deploy to an unknown namespace."@
}

/// The error for a resource of `kind` that has no namespace.
pub open spec fn spec_unnamespaced(kind: Seq<char>) -> ErrorView {
    ErrorView::UserInputError(spec_unnamespaced_message(kind))
}

/// First move of the apply path: build the children, then begin applying
/// them in order.
pub open spec fn spec_apply_path<R: Managed>(resource: &R) -> PathStepView {
    match resource.spec_metadata().namespace {
        None => PathStepView::Return(Err(spec_unnamespaced(R::spec_kind()))),
        Some(_) => match resource.spec_children() {
            Err(e) => PathStepView::Return(Err(e)),
            Ok(children) => spec_apply_all(children, R::spec_field_manager()),
        },
    }
}

/// First move of the cleanup path: delete the workload named after the
/// resource.
pub open spec fn spec_cleanup_path<R: Managed>(resource: &R) -> PathStepView {
    let meta = resource.spec_metadata();
    match (meta.namespace, meta.name) {
        (None, _) => PathStepView::Return(Err(spec_unnamespaced(R::spec_kind()))),
        (Some(_), None) => PathStepView::Return(
            Err(ErrorView::MissingObjectKey(".metadata.name"@)),
        ),
        (Some(namespace), Some(name)) => spec_delete_by_name(
            ChildKind::Workload,
            namespace,
            name,
            R::spec_field_manager(),
        ),
    }
}

/// First move of a reconcile attempt.
pub open spec fn spec_reconcile<R: Managed>(resource: &R) -> StepView {
    let meta = resource.spec_metadata();
    let token = R::spec_finalizer();
    match meta.namespace {
        None => StepView::Return(Err(spec_unnamespaced(R::spec_kind()))),
        Some(namespace) => match spec_decide(meta, token) {
            Decision::Apply => spec_guard_apply(spec_apply_path(resource)),
            Decision::Nothing => StepView::Return(Ok(SchedulingDirective::AwaitNextChange)),
            Decision::AddThenApply => match meta.name {
                None => spec_unnamed(),
                Some(name) => StepView::Call {
                    state: PendingView::AddingFinalizer,
                    request: RequestView::AddFinalizer {
                        namespace,
                        name,
                        existing: meta.finalizers,
                        token,
                    },
                },
            },
            Decision::Cleanup(index) => match meta.name {
                None => spec_unnamed(),
                Some(name) => spec_guard_cleanup(
                    spec_cleanup_path(resource),
                    namespace,
                    name,
                    index,
                    token,
                ),
            },
        },
    }
}

/// The move that follows `reply` in `pending`.
pub open spec fn spec_resume<R: Managed>(resource: &R, pending: PendingView, reply: ReplyView) -> StepView {
    match pending {
        PendingView::AddingFinalizer => match reply {
            ReplyView::Done => spec_guard_apply(spec_apply_path(resource)),
            ReplyView::Failed(f) => StepView::Return(
                Err(ErrorView::FinalizerError(Box::new(FinalizerErrorView::AddFinalizer(f)))),
            ),
        },
        PendingView::Applying(path) => spec_guard_apply(spec_proceed(path, reply)),
        PendingView::Cleaning { path, namespace, name, index, token } => spec_guard_cleanup(
            spec_proceed(path, reply),
            namespace,
            name,
            index,
            token,
        ),
        PendingView::RemovingFinalizer => match reply {
            ReplyView::Done => StepView::Return(Ok(SchedulingDirective::AwaitNextChange)),
            ReplyView::Failed(f) => StepView::Return(
                Err(ErrorView::FinalizerError(Box::new(FinalizerErrorView::RemoveFinalizer(f)))),
            ),
        },
    }
}

/// The error for a resource of `kind` that has no namespace.
pub fn unnamespaced(kind: String) -> (error: Error)
    ensures
        error@ == spec_unnamespaced(kind@),
{
    let message = String::from_str("Expected ").concat(kind.as_str()).concat(
        " resource to be namespaced. Can't deploy to an unknown namespace.",
    );
    Error::UserInputError(message)
}

/// Begins the apply path for `resource`.
pub fn apply_path<R: Managed>(resource: &R) -> (step: PathStep)
    ensures
        step@ == spec_apply_path(resource),
{
    match &resource.metadata().namespace {
        None => PathStep::Return(Err(unnamespaced(R::kind()))),
        Some(_) => match resource.children() {
            Err(e) => PathStep::Return(Err(e)),
            Ok(children) => apply_all(children, R::field_manager()),
        },
    }
}

/// Begins the cleanup path for `resource`.
pub fn cleanup_path<R: Managed>(resource: &R) -> (step: PathStep)
    ensures
        step@ == spec_cleanup_path(resource),
{
    let meta = resource.metadata();
    match (&meta.namespace, &meta.name) {
        (None, _) => PathStep::Return(Err(unnamespaced(R::kind()))),
        (Some(_), None) => PathStep::Return(Err(Error::MissingObjectKey(".metadata.name"))),
        (Some(namespace), Some(name)) => delete_by_name(
            ChildKind::Workload,
            namespace.clone(),
            name.clone(),
            R::field_manager(),
        ),
    }
}

/// Begins a reconcile attempt on a snapshot of `resource`.
pub fn reconcile<R: Managed>(resource: &R) -> (step: Step)
    ensures
        step@ == spec_reconcile(resource),
{
    let meta = resource.metadata();
    let token = R::finalizer();
    match &meta.namespace {
        None => Step::Return(Err(unnamespaced(R::kind()))),
        Some(namespace) => match decide(meta, &token) {
            Decision::Apply => guard_apply(apply_path(resource)),
            Decision::Nothing => Step::Return(Ok(SchedulingDirective::AwaitNextChange)),
            Decision::AddThenApply => match &meta.name {
                None => unnamed(),
                Some(name) => Step::Call {
                    state: Pending::AddingFinalizer,
                    request: Request::AddFinalizer {
                        namespace: namespace.clone(),
                        name: name.clone(),
                        existing: clone_tokens(&meta.finalizers),
                        token,
                    },
                },
            },
            Decision::Cleanup(index) => match &meta.name {
                None => unnamed(),
                Some(name) => guard_cleanup(
                    cleanup_path(resource),
                    namespace.clone(),
                    name.clone(),
                    index,
                    token,
                ),
            },
        },
    }
}

/// Continues the attempt on `resource` with the cluster's reply to the
/// request that `pending` was handed out with.
pub fn resume<R: Managed>(resource: &R, pending: Pending, reply: Reply) -> (step: Step)
    ensures
        step@ == spec_resume(resource, pending@, reply@),
{
    match pending {
        Pending::AddingFinalizer => match reply {
            Reply::Done => guard_apply(apply_path(resource)),
            Reply::Failed(f) => Step::Return(
                Err(Error::FinalizerError(Box::new(FinalizerError::AddFinalizer(f)))),
            ),
        },
        Pending::Applying(path) => guard_apply(proceed(path, reply)),
        Pending::Cleaning { path, namespace, name, index, token } => guard_cleanup(
            proceed(path, reply),
            namespace,
            name,
            index,
            token,
        ),
        Pending::RemovingFinalizer => match reply {
            Reply::Done => Step::Return(Ok(SchedulingDirective::AwaitNextChange)),
            Reply::Failed(f) => Step::Return(
                Err(Error::FinalizerError(Box::new(FinalizerError::RemoveFinalizer(f)))),
            ),
        },
    }
}

/// A copy of `tokens`.
pub fn clone_tokens(tokens: &Vec<String>) -> (copy: Vec<String>)
    ensures
        copy.deep_view() == tokens.deep_view(),
{
    let mut copy: Vec<String> = Vec::new();
    let mut i: usize = 0;
    while i < tokens.len()
        invariant
            i <= tokens.len(),
            copy.len() == i,
            forall|j: int| 0 <= j < i ==> copy[j]@ == tokens[j]@,
        decreases tokens.len() - i,
    {
        copy.push(tokens[i].clone());
        i += 1;
    }
    assert(copy.deep_view() =~= tokens.deep_view());
    copy
}

} // verus!

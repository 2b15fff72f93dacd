//! The conversation between the engine and whoever talks to the cluster.
//!
//! The engine hands out a [`Request`]; the caller performs it and reports a
//! [`Reply`]; the engine answers with the next request, or with the outcome
//! of the attempt.  What the engine has to remember in between travels in
//! [`PathState`] and [`Pending`].

use crate::child::{ChildKind, ChildObject, ChildObjectView, children_view};
use crate::directive::SchedulingDirective;
use crate::error::{ApiFailure, ApiFailureView, Error, ErrorView};
use vstd::prelude::*;

verus! {

/// One call to the cluster API.
#[derive(Debug, PartialEq, Eq)]
pub enum Request {
    /// Append `token` to the finalizers of the named resource, provided they
    /// still are `existing`.
    AddFinalizer { namespace: String, name: String, existing: Vec<String>, token: String },
    /// Remove the finalizer at `index` of the named resource, provided it
    /// still is `token`.
    RemoveFinalizer { namespace: String, name: String, index: usize, token: String },
    /// Create or update `child` by a declarative merge under `field_manager`.
    Apply { child: ChildObject, field_manager: String },
    /// Look up whether the named child exists.
    Get { kind: ChildKind, namespace: String, name: String },
    /// Create `child`, which must not exist yet.
    Create { child: ChildObject },
    /// Delete the named child.
    Delete { kind: ChildKind, namespace: String, name: String },
}

pub enum RequestView {
    AddFinalizer { namespace: Seq<char>, name: Seq<char>, existing: Seq<Seq<char>>, token: Seq<char> },
    RemoveFinalizer { namespace: Seq<char>, name: Seq<char>, index: usize, token: Seq<char> },
    Apply { child: ChildObjectView, field_manager: Seq<char> },
    Get { kind: ChildKind, namespace: Seq<char>, name: Seq<char> },
    Create { child: ChildObjectView },
    Delete { kind: ChildKind, namespace: Seq<char>, name: Seq<char> },
}

impl View for Request {
    type V = RequestView;

    open spec fn view(&self) -> RequestView {
        match self {
            Request::AddFinalizer { namespace, name, existing, token } => RequestView::AddFinalizer {
                namespace: namespace@,
                name: name@,
                existing: existing.deep_view(),
                token: token@,
            },
            Request::RemoveFinalizer { namespace, name, index, token } => RequestView::RemoveFinalizer {
                namespace: namespace@,
                name: name@,
                index: *index,
                token: token@,
            },
            Request::Apply { child, field_manager } => RequestView::Apply {
                child: child@,
                field_manager: field_manager@,
            },
            Request::Get { kind, namespace, name } => RequestView::Get {
                kind: *kind,
                namespace: namespace@,
                name: name@,
            },
            Request::Create { child } => RequestView::Create { child: child@ },
            Request::Delete { kind, namespace, name } => RequestView::Delete {
                kind: *kind,
                namespace: namespace@,
                name: name@,
            },
        }
    }
}

/// How the cluster answered a request.  A lookup of an object that does not
/// exist is a failure like any other; the engine tells it apart by its
/// status code.
#[derive(Debug, PartialEq, Eq)]
pub enum Reply {
    Done,
    Failed(ApiFailure),
}

pub enum ReplyView {
    Done,
    Failed(ApiFailureView),
}

impl View for Reply {
    type V = ReplyView;

    open spec fn view(&self) -> ReplyView {
        match self {
            Reply::Done => ReplyView::Done,
            Reply::Failed(f) => ReplyView::Failed(f@),
        }
    }
}

/// View of the outcome of an attempt.
pub open spec fn outcome_view(outcome: Result<SchedulingDirective, Error>) -> Result<
    SchedulingDirective,
    ErrorView,
> {
    match outcome {
        Ok(d) => Ok(d),
        Err(e) => Err(e@),
    }
}

/// Which request of the apply or cleanup path is in flight.
#[derive(Debug, PartialEq, Eq)]
pub enum PathStage {
    /// An `Apply` of a child of this kind.
    Patching(ChildKind),
    /// A `Get` for this workload, which is created if the lookup finds
    /// nothing.
    Probing(ChildObject),
    /// A `Create` of the workload.
    Creating,
    /// A `Delete` of the workload.
    Deleting,
}

pub enum PathStageView {
    Patching(ChildKind),
    Probing(ChildObjectView),
    Creating,
    Deleting,
}

impl View for PathStage {
    type V = PathStageView;

    open spec fn view(&self) -> PathStageView {
        match self {
            PathStage::Patching(k) => PathStageView::Patching(*k),
            PathStage::Probing(c) => PathStageView::Probing(c@),
            PathStage::Creating => PathStageView::Creating,
            PathStage::Deleting => PathStageView::Deleting,
        }
    }
}

/// Where the apply or cleanup path stands while a request is in flight.
#[derive(Debug, PartialEq, Eq)]
pub struct PathState {
    pub stage: PathStage,
    /// Children still to be applied once the request in flight succeeds.
    pub queue: Vec<ChildObject>,
    pub field_manager: String,
}

pub struct PathStateView {
    pub stage: PathStageView,
    pub queue: Seq<ChildObjectView>,
    pub field_manager: Seq<char>,
}

impl View for PathState {
    type V = PathStateView;

    open spec fn view(&self) -> PathStateView {
        PathStateView {
            stage: self.stage@,
            queue: children_view(self.queue@),
            field_manager: self.field_manager@,
        }
    }
}

/// One move of the apply or cleanup path.
#[derive(Debug, PartialEq, Eq)]
pub enum PathStep {
    /// Perform `request`, then continue from `state` with the reply.
    Call { state: PathState, request: Request },
    /// The path has ended.
    Return(Result<SchedulingDirective, Error>),
}

pub enum PathStepView {
    Call { state: PathStateView, request: RequestView },
    Return(Result<SchedulingDirective, ErrorView>),
}

impl View for PathStep {
    type V = PathStepView;

    open spec fn view(&self) -> PathStepView {
        match self {
            PathStep::Call { state, request } => PathStepView::Call {
                state: state@,
                request: request@,
            },
            PathStep::Return(outcome) => PathStepView::Return(outcome_view(*outcome)),
        }
    }
}

/// Where a reconcile attempt stands while a request is in flight.
#[derive(Debug, PartialEq, Eq)]
pub enum Pending {
    /// The finalizer token is being added; the apply path has not begun.
    AddingFinalizer,
    /// The apply path is under way.
    Applying(PathState),
    /// The cleanup path is under way; once it succeeds, the finalizer at
    /// `index` of the named resource is released.
    Cleaning { path: PathState, namespace: String, name: String, index: usize, token: String },
    /// Cleanup has succeeded and the finalizer token is being removed.
    RemovingFinalizer,
}

pub enum PendingView {
    AddingFinalizer,
    Applying(PathStateView),
    Cleaning {
        path: PathStateView,
        namespace: Seq<char>,
        name: Seq<char>,
        index: usize,
        token: Seq<char>,
    },
    RemovingFinalizer,
}

impl View for Pending {
    type V = PendingView;

    open spec fn view(&self) -> PendingView {
        match self {
            Pending::AddingFinalizer => PendingView::AddingFinalizer,
            Pending::Applying(path) => PendingView::Applying(path@),
            Pending::Cleaning { path, namespace, name, index, token } => PendingView::Cleaning {
                path: path@,
                namespace: namespace@,
                name: name@,
                index: *index,
                token: token@,
            },
            Pending::RemovingFinalizer => PendingView::RemovingFinalizer,
        }
    }
}

/// One move of a reconcile attempt.
#[derive(Debug, PartialEq, Eq)]
pub enum Step {
    /// Perform `request`, then continue from `state` with the reply.
    Call { state: Pending, request: Request },
    /// The attempt has ended.
    Return(Result<SchedulingDirective, Error>),
}

pub enum StepView {
    Call { state: PendingView, request: RequestView },
    Return(Result<SchedulingDirective, ErrorView>),
}

impl View for Step {
    type V = StepView;

    open spec fn view(&self) -> StepView {
        match self {
            Step::Call { state, request } => StepView::Call { state: state@, request: request@ },
            Step::Return(outcome) => StepView::Return(outcome_view(*outcome)),
        }
    }
}

} // verus!

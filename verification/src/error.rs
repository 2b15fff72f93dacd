//! Error taxonomy of the reconciliation engine.

use vstd::prelude::*;

verus! {

/// HTTP status code with which the cluster API reports a missing object.
pub const NOT_FOUND: u16 = 404;

/// A failed cluster API call, as reported by the transport.
#[derive(Clone, Debug, PartialEq, Eq)]
pub struct ApiFailure {
    /// HTTP status code of the response, or 0 if there was no response.
    pub code: u16,
    /// Machine-readable reason.
    pub reason: String,
    /// Human-readable message.
    pub message: String,
}

pub struct ApiFailureView {
    pub code: u16,
    pub reason: Seq<char>,
    pub message: Seq<char>,
}

impl View for ApiFailure {
    type V = ApiFailureView;

    open spec fn view(&self) -> ApiFailureView {
        ApiFailureView { code: self.code, reason: self.reason@, message: self.message@ }
    }
}

impl ApiFailure {
    /// Whether the cluster answered that the addressed object does not exist.
    pub fn is_not_found(&self) -> (b: bool)
        ensures
            b == (self@.code == NOT_FOUND),
    {
        self.code == NOT_FOUND
    }
}

/// Failure of the finalizer lifecycle around a reconcile.
#[derive(Debug, PartialEq, Eq)]
pub enum FinalizerError {
    /// The apply path failed.
    ApplyFailed(Error),
    /// The cleanup path failed; the finalizer token stays in place.
    CleanupFailed(Error),
    /// Writing the finalizer token to the resource failed.
    AddFinalizer(ApiFailure),
    /// Removing the finalizer token from the resource failed.
    RemoveFinalizer(ApiFailure),
    /// The resource has no name, so its finalizers cannot be written.
    UnnamedObject,
}

/// Why a reconcile attempt failed.
#[derive(Debug, PartialEq, Eq)]
pub enum Error {
    /// A cluster API call failed.
    KubeError(ApiFailure),
    /// The resource as declared cannot be reconciled.
    UserInputError(String),
    /// The finalizer lifecycle failed.
    FinalizerError(Box<FinalizerError>),
    /// Applying the configuration bundle failed.
    ConfigMapCreationFailed(ApiFailure),
    /// Applying the network endpoint failed.
    ServiceCreationFailed(ApiFailure),
    /// A required metadata field is missing.
    MissingObjectKey(&'static str),
}

pub enum FinalizerErrorView {
    ApplyFailed(ErrorView),
    CleanupFailed(ErrorView),
    AddFinalizer(ApiFailureView),
    RemoveFinalizer(ApiFailureView),
    UnnamedObject,
}

pub enum ErrorView {
    KubeError(ApiFailureView),
    UserInputError(Seq<char>),
    FinalizerError(Box<FinalizerErrorView>),
    ConfigMapCreationFailed(ApiFailureView),
    ServiceCreationFailed(ApiFailureView),
    MissingObjectKey(Seq<char>),
}

pub open spec fn error_view(e: Error) -> ErrorView
    decreases e,
{
    match e {
        Error::KubeError(f) => ErrorView::KubeError(f@),
        Error::UserInputError(m) => ErrorView::UserInputError(m@),
        Error::FinalizerError(b) => ErrorView::FinalizerError(Box::new(finalizer_error_view(*b))),
        Error::ConfigMapCreationFailed(f) => ErrorView::ConfigMapCreationFailed(f@),
        Error::ServiceCreationFailed(f) => ErrorView::ServiceCreationFailed(f@),
        Error::MissingObjectKey(k) => ErrorView::MissingObjectKey(k@),
    }
}

pub open spec fn finalizer_error_view(e: FinalizerError) -> FinalizerErrorView
    decreases e,
{
    match e {
        FinalizerError::ApplyFailed(inner) => FinalizerErrorView::ApplyFailed(error_view(inner)),
        FinalizerError::CleanupFailed(inner) => FinalizerErrorView::CleanupFailed(error_view(inner)),
        FinalizerError::AddFinalizer(f) => FinalizerErrorView::AddFinalizer(f@),
        FinalizerError::RemoveFinalizer(f) => FinalizerErrorView::RemoveFinalizer(f@),
        FinalizerError::UnnamedObject => FinalizerErrorView::UnnamedObject,
    }
}

impl View for Error {
    type V = ErrorView;

    open spec fn view(&self) -> ErrorView {
        error_view(*self)
    }
}

impl View for FinalizerError {
    type V = FinalizerErrorView;

    open spec fn view(&self) -> FinalizerErrorView {
        finalizer_error_view(*self)
    }
}

/// The classes of error that the engine tells apart.
#[derive(Clone, Copy, Debug, PartialEq, Eq, Structural)]
pub enum ErrorClass {
    /// The resource as declared cannot be reconciled; only its author can
    /// mend it.
    UserInput,
    /// Applying a network endpoint or a configuration bundle failed.
    ChildCreation,
    /// A cluster API call failed, for whatever reason.
    Transport,
    /// Writing the finalizer token failed.
    Finalizer,
}

impl ErrorClass {
    /// Whether a later attempt can succeed without a change to the
    /// resource.
    pub fn is_transient(self) -> (transient: bool)
        ensures
            transient == (self != ErrorClass::UserInput),
    {
        match self {
            ErrorClass::UserInput => false,
            _ => true,
        }
    }
}

/// The class of an error.  A failure of the apply or cleanup path has the
/// class of what made the path fail.
pub open spec fn spec_class(e: ErrorView) -> ErrorClass
    decreases e,
{
    match e {
        ErrorView::KubeError(_) => ErrorClass::Transport,
        ErrorView::UserInputError(_) => ErrorClass::UserInput,
        ErrorView::MissingObjectKey(_) => ErrorClass::UserInput,
        ErrorView::ConfigMapCreationFailed(_) => ErrorClass::ChildCreation,
        ErrorView::ServiceCreationFailed(_) => ErrorClass::ChildCreation,
        ErrorView::FinalizerError(inner) => match *inner {
            FinalizerErrorView::ApplyFailed(cause) => spec_class(cause),
            FinalizerErrorView::CleanupFailed(cause) => spec_class(cause),
            FinalizerErrorView::AddFinalizer(_) => ErrorClass::Finalizer,
            FinalizerErrorView::RemoveFinalizer(_) => ErrorClass::Finalizer,
            FinalizerErrorView::UnnamedObject => ErrorClass::UserInput,
        },
    }
}

impl Error {
    /// The class of this error.
    pub fn class(&self) -> (class: ErrorClass)
        ensures
            class == spec_class(self@),
        decreases self,
    {
        match self {
            Error::KubeError(_) => ErrorClass::Transport,
            Error::UserInputError(_) => ErrorClass::UserInput,
            Error::MissingObjectKey(_) => ErrorClass::UserInput,
            Error::ConfigMapCreationFailed(_) => ErrorClass::ChildCreation,
            Error::ServiceCreationFailed(_) => ErrorClass::ChildCreation,
            Error::FinalizerError(inner) => match &**inner {
                FinalizerError::ApplyFailed(cause) => cause.class(),
                FinalizerError::CleanupFailed(cause) => cause.class(),
                FinalizerError::AddFinalizer(_) => ErrorClass::Finalizer,
                FinalizerError::RemoveFinalizer(_) => ErrorClass::Finalizer,
                FinalizerError::UnnamedObject => ErrorClass::UserInput,
            },
        }
    }
}

/// View of a result whose error is an [`Error`].
pub open spec fn result_view<T: View>(result: Result<T, Error>) -> Result<T::V, ErrorView> {
    match result {
        Ok(value) => Ok(value@),
        Err(e) => Err(e@),
    }
}

} // verus!

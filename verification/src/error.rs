//! The failures that surround a backend.

use vstd::prelude::*;
use vstd::string::*;

verus! {

/// What can go wrong around a backend. `NoBackend` and `Start` arise before a
/// backend exists; `Inference` and `Unhealthy` are reported by a live one.
#[derive(Debug)]
pub enum BackendError {
    /// No backend could be selected for the model and hardware at hand.
    NoBackend,
    /// Constructing the backend failed, for the given reason.
    Start(String),
    /// One inference call failed at run time, for the given reason.
    Inference(String),
    /// The backend cannot currently serve any request.
    Unhealthy,
}

/// The mathematical content of a [`BackendError`].
pub enum BackendErrorView {
    NoBackend,
    Start(Seq<char>),
    Inference(Seq<char>),
    Unhealthy,
}

impl BackendErrorView {
    /// The human-readable message of the error.
    pub open spec fn message(self) -> Seq<char> {
        match self {
            BackendErrorView::NoBackend => "No backend found"@,
            BackendErrorView::Start(reason) => "Could not start backend: "@ + reason,
            BackendErrorView::Inference(reason) => reason,
            BackendErrorView::Unhealthy => "Backend is unhealthy"@,
        }
    }

    /// The error is one that a live backend reports: a failed inference call or
    /// the loss of its ability to serve.
    pub open spec fn from_live_backend(self) -> bool {
        self is Inference || self is Unhealthy
    }
}

impl View for BackendError {
    type V = BackendErrorView;

    open spec fn view(&self) -> BackendErrorView {
        match self {
            BackendError::NoBackend => BackendErrorView::NoBackend,
            BackendError::Start(reason) => BackendErrorView::Start(reason@),
            BackendError::Inference(reason) => BackendErrorView::Inference(reason@),
            BackendError::Unhealthy => BackendErrorView::Unhealthy,
        }
    }
}

impl Clone for BackendError {
    /// A clone is the same error with the same reason.
    fn clone(&self) -> (copy: Self)
        ensures
            copy == *self,
    {
        match self {
            BackendError::NoBackend => BackendError::NoBackend,
            BackendError::Start(reason) => BackendError::Start(reason.clone()),
            BackendError::Inference(reason) => BackendError::Inference(reason.clone()),
            BackendError::Unhealthy => BackendError::Unhealthy,
        }
    }
}

impl BackendError {
    /// Renders the error as its human-readable message.
    pub fn to_string(&self) -> (s: String)
        ensures
            s@ == self@.message(),
    {
        match self {
            BackendError::NoBackend => String::from_str("No backend found"),
            BackendError::Start(reason) => String::from_str("Could not start backend: ").concat(
                reason.as_str(),
            ),
            BackendError::Inference(reason) => reason.clone(),
            BackendError::Unhealthy => String::from_str("Backend is unhealthy"),
        }
    }
}

} // verus!

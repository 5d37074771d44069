//! The reconciler's error type: transport failures of the cluster API,
//! carried as the API client's message text.

use vstd::prelude::*;
use vstd::string::*;

verus! {

/// An error surfaced by a reconcile step.
#[derive(Debug, Clone, PartialEq)]
pub enum Error {
    /// A cluster API failure, with the client's message.
    Kube(String),
}

pub ghost enum ErrorView {
    Kube(Seq<char>),
}

impl View for Error {
    type V = ErrorView;

    open spec fn view(&self) -> ErrorView {
        match self {
            Error::Kube(m) => ErrorView::Kube(m@),
        }
    }
}

/// The display text of an error.
pub open spec fn spec_error_text(e: ErrorView) -> Seq<char> {
    match e {
        ErrorView::Kube(m) => "Kubernetes API error: "@ + m,
    }
}

impl Error {
    /// The human-readable message for this error.
    pub fn text(&self) -> (r: String)
        ensures
            r@ == spec_error_text(self@),
    {
        match self {
            Error::Kube(m) => String::from_str("Kubernetes API error: ").concat(m.as_str()),
        }
    }
}

} // verus!

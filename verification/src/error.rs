//! The failures that a reconciliation pass can meet.

use vstd::prelude::*;

verus! {

/// Why a step of a pass failed.
#[derive(Clone, Debug, PartialEq, Eq)]
pub enum Error {
    /// The cluster API failed or rejected a request; the text is its report.
    KubeAPI(String),
    /// Any other failure.
    Unknown,
}

/// The mathematical value of an [`Error`].
pub enum ErrorView {
    KubeAPI(Seq<char>),
    Unknown,
}

impl ErrorView {
    /// The fixed text that describes the kind of failure.
    pub open spec fn message(self) -> Seq<char> {
        match self {
            ErrorView::KubeAPI(_) => "Kube API Error"@,
            ErrorView::Unknown => "Unknown"@,
        }
    }
}

impl DeepView for Error {
    type V = ErrorView;

    open spec fn deep_view(&self) -> ErrorView {
        match self {
            Error::KubeAPI(report) => ErrorView::KubeAPI(report@),
            Error::Unknown => ErrorView::Unknown,
        }
    }
}

impl View for Error {
    type V = ErrorView;

    open spec fn view(&self) -> ErrorView {
        self.deep_view()
    }
}

impl Error {
    /// The fixed text that describes the kind of failure.
    pub fn message(&self) -> (text: String)
        ensures
            text@ == self@.message(),
    {
        match self {
            Error::KubeAPI(_) => "Kube API Error".to_owned(),
            Error::Unknown => "Unknown".to_owned(),
        }
    }
}

} // verus!

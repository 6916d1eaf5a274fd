//! Failures of a reconciliation.

use vstd::prelude::*;
use vstd::string::StringExecFns;

verus! {

/// The status code with which the API server says that an object does not exist.
pub const NOT_FOUND: u16 = 404;

/// A request that the API server did not carry out.
///
/// `code` is the HTTP status of the server's answer, 0 where the request got
/// no answer at all.
#[derive(Clone, Debug, PartialEq, Eq)]
pub struct ApiError {
    pub code: u16,
    pub message: String,
}

/// A failed request as a mathematical value.
pub struct ApiErrorView {
    pub code: u16,
    pub message: Seq<char>,
}

impl View for ApiError {
    type V = ApiErrorView;

    open spec fn view(&self) -> ApiErrorView {
        ApiErrorView { code: self.code, message: self.message@ }
    }
}

impl ApiError {
    /// The server answered that the object does not exist.
    pub fn is_not_found(&self) -> (res: bool)
        ensures
            res == (self.code == NOT_FOUND),
    {
        self.code == NOT_FOUND
    }
}

/// Why a reconciliation ended without success.
#[derive(Clone, Debug, PartialEq, Eq)]
pub enum Error {
    /// A request to the API server failed.
    WazuhClusterCreationFailed(ApiError),
    /// The resource lacks a field that identifies it.
    MissingObjectKey(&'static str),
}

/// An error as a mathematical value.
pub enum ErrorView {
    WazuhClusterCreationFailed(ApiErrorView),
    MissingObjectKey(Seq<char>),
}

impl View for Error {
    type V = ErrorView;

    open spec fn view(&self) -> ErrorView {
        match self {
            Error::WazuhClusterCreationFailed(e) => ErrorView::WazuhClusterCreationFailed(e@),
            Error::MissingObjectKey(key) => ErrorView::MissingObjectKey(key@),
        }
    }
}

/// The text of an error.
pub open spec fn error_text(e: ErrorView) -> Seq<char> {
    match e {
        ErrorView::WazuhClusterCreationFailed(e) => "Failed to create WazuhCluster: "@ + e.message,
        ErrorView::MissingObjectKey(key) => "MissingObjectKey: "@ + key,
    }
}

impl Error {
    /// The error as a line of text.
    pub fn message(&self) -> (res: String)
        ensures
            res@ == error_text(self@),
    {
        match self {
            Error::WazuhClusterCreationFailed(e) => {
                String::from_str("Failed to create WazuhCluster: ").concat(e.message.as_str())
            },
            Error::MissingObjectKey(key) => String::from_str("MissingObjectKey: ").concat(key),
        }
    }
}

} // verus!

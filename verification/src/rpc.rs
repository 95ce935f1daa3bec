//! The status with which a request handler refuses a request.

use vstd::prelude::*;
use vstd::string::*;

verus! {

/// The kinds of refusal: the canonical codes of remote calls. The handlers
/// of the service refuse with `InvalidArgument`, `FailedPrecondition`,
/// `Internal` and `NotFound`; the others come from the directory services and
/// are handed on.
#[derive(Clone, Copy, Debug, PartialEq, Eq, Structural)]
pub enum Code {
    Cancelled,
    Unknown,
    InvalidArgument,
    DeadlineExceeded,
    NotFound,
    AlreadyExists,
    PermissionDenied,
    ResourceExhausted,
    FailedPrecondition,
    Aborted,
    OutOfRange,
    Unimplemented,
    Internal,
    Unavailable,
    DataLoss,
    Unauthenticated,
}

/// A refusal: its kind and a message for the caller.
#[derive(Clone, Debug, PartialEq, Eq)]
pub struct Status {
    pub code: Code,
    pub message: String,
}

/// A `Status` as a mathematical value.
pub struct StatusView {
    pub code: Code,
    pub message: Seq<char>,
}

impl View for Status {
    type V = StatusView;

    open spec fn view(&self) -> StatusView {
        StatusView { code: self.code, message: self.message@ }
    }
}

impl StatusView {
    /// A refusal of a request that is wrong on its face.
    pub open spec fn invalid_argument(message: Seq<char>) -> StatusView {
        StatusView { code: Code::InvalidArgument, message }
    }

    /// A refusal of a request that the state of things does not allow.
    pub open spec fn failed_precondition(message: Seq<char>) -> StatusView {
        StatusView { code: Code::FailedPrecondition, message }
    }

    /// A refusal for a failure on the side of the service.
    pub open spec fn internal(message: Seq<char>) -> StatusView {
        StatusView { code: Code::Internal, message }
    }
}

impl Status {
    /// A refusal of a kind, with a message.
    pub fn new(code: Code, message: &str) -> (status: Status)
        ensures
            status@ == (StatusView { code, message: message@ }),
    {
        Status { code, message: String::from_str(message) }
    }

    /// A refusal of a request that is wrong on its face.
    pub fn invalid_argument(message: &str) -> (status: Status)
        ensures
            status@ == StatusView::invalid_argument(message@),
    {
        Status::new(Code::InvalidArgument, message)
    }

    /// A refusal of a request that the state of things does not allow.
    pub fn failed_precondition(message: &str) -> (status: Status)
        ensures
            status@ == StatusView::failed_precondition(message@),
    {
        Status::new(Code::FailedPrecondition, message)
    }

    /// A refusal for a failure on the side of the service.
    pub fn internal(message: &str) -> (status: Status)
        ensures
            status@ == StatusView::internal(message@),
    {
        Status::new(Code::Internal, message)
    }
}

/// The view of an answer whose success holds no text.
pub open spec fn answer_view<T>(answer: Result<T, Status>) -> Result<T, StatusView> {
    match answer {
        Ok(t) => Ok(t),
        Err(status) => Err(status@),
    }
}

} // verus!

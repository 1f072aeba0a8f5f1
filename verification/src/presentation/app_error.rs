use crate::domain::error::{DomainError, DomainErrorView};
use vstd::prelude::*;

verus! {

/// The status code for what the request got wrong.
pub const BAD_REQUEST: u16 = 400;

/// The status code for a write that lost against another.
pub const CONFLICT: u16 = 409;

/// The status code for a failure of the backend.
pub const INTERNAL_SERVER_ERROR: u16 = 500;

/// What is sent back for a request: the status code, and for a failure the message
/// that goes into the body under the key `error`.
#[derive(Debug, PartialEq, Eq)]
pub struct Reply {
    pub status: u16,
    pub error: Option<String>,
}

/// A `Reply` as plain values.
pub struct ReplyView {
    pub status: u16,
    pub error: Option<Seq<char>>,
}

impl View for Reply {
    type V = ReplyView;

    open spec fn view(&self) -> ReplyView {
        ReplyView {
            status: self.status,
            error: match self.error {
                Some(message) => Some(message@),
                None => None,
            },
        }
    }
}

/// The status code for each error: what the request got wrong is 400, a write that
/// lost against another is 409, and a failure of the backend is 500.
pub open spec fn status_of(e: DomainErrorView) -> u16 {
    match e {
        DomainErrorView::Ticket(_) => BAD_REQUEST,
        DomainErrorView::RepositoryError(_) => INTERNAL_SERVER_ERROR,
        DomainErrorView::ConcurrentModification => CONFLICT,
        DomainErrorView::Infrastructure(_) => INTERNAL_SERVER_ERROR,
        DomainErrorView::InvalidTicketId => BAD_REQUEST,
    }
}

/// The message for each error: a ticket error speaks for itself, a repository error
/// passes the backend's message on, and the others use their own sentence.
pub open spec fn body_of(e: DomainErrorView) -> Seq<char> {
    match e {
        DomainErrorView::Ticket(cause) => cause.message_text(),
        DomainErrorView::RepositoryError(message) => message,
        _ => e.message_text(),
    }
}

impl DomainError {
    /// The reply that reports this error.
    pub fn into_response(self) -> (r: Reply)
        ensures
            r@ == (ReplyView { status: status_of(self@), error: Some(body_of(self@)) }),
    {
        let (status, message) = match self {
            DomainError::Ticket(cause) => (BAD_REQUEST, cause.message()),
            DomainError::RepositoryError(message) => (INTERNAL_SERVER_ERROR, message),
            DomainError::ConcurrentModification => (CONFLICT, self.message()),
            DomainError::Infrastructure(_) => (INTERNAL_SERVER_ERROR, self.message()),
            DomainError::InvalidTicketId => (BAD_REQUEST, self.message()),
        };
        Reply { status, error: Some(message) }
    }
}

} // verus!

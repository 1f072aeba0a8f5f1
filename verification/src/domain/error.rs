use crate::domain::tickets::ticket_error::TicketError;
use vstd::prelude::*;
use vstd::std_specs::convert::FromSpecImpl;

verus! {

/// Every failure that an operation of this library can report.
#[derive(Debug, PartialEq, Eq)]
pub enum DomainError {
    /// A rule of the ticket aggregate was broken.
    Ticket(TicketError),
    /// The storage backend reported a failure; its message is kept.
    RepositoryError(String),
    /// A conditional write matched no row: the ticket was changed in the meantime.
    ConcurrentModification,
    /// A connection or transaction-lifecycle failure.
    Infrastructure(String),
    /// A text that should name a ticket is no identifier.
    InvalidTicketId,
}

impl Clone for DomainError {
    fn clone(&self) -> (r: Self)
        ensures
            r == *self,
    {
        match self {
            DomainError::Ticket(e) => DomainError::Ticket(*e),
            DomainError::RepositoryError(message) => DomainError::RepositoryError(message.clone()),
            DomainError::ConcurrentModification => DomainError::ConcurrentModification,
            DomainError::Infrastructure(message) => DomainError::Infrastructure(message.clone()),
            DomainError::InvalidTicketId => DomainError::InvalidTicketId,
        }
    }
}

/// A `DomainError` with its messages as plain texts.
pub enum DomainErrorView {
    Ticket(TicketError),
    RepositoryError(Seq<char>),
    ConcurrentModification,
    Infrastructure(Seq<char>),
    InvalidTicketId,
}

impl View for DomainError {
    type V = DomainErrorView;

    open spec fn view(&self) -> DomainErrorView {
        match self {
            DomainError::Ticket(e) => DomainErrorView::Ticket(*e),
            DomainError::RepositoryError(m) => DomainErrorView::RepositoryError(m@),
            DomainError::ConcurrentModification => DomainErrorView::ConcurrentModification,
            DomainError::Infrastructure(m) => DomainErrorView::Infrastructure(m@),
            DomainError::InvalidTicketId => DomainErrorView::InvalidTicketId,
        }
    }
}

impl DomainErrorView {
    /// The sentence shown to a person for each error.
    pub open spec fn message_text(self) -> Seq<char> {
        match self {
            DomainErrorView::Ticket(e) => "Ticket error: "@ + e.message_text(),
            DomainErrorView::RepositoryError(m) => "Repository error: "@ + m,
            DomainErrorView::ConcurrentModification => "Concurrent modification error"@,
            DomainErrorView::Infrastructure(m) => "Infrastructure error: "@ + m,
            DomainErrorView::InvalidTicketId => "Invalid ticket id"@,
        }
    }
}

impl DomainError {
    /// The sentence shown to a person for this error.
    pub fn message(&self) -> (r: String)
        ensures
            r@ == self@.message_text(),
    {
        match self {
            DomainError::Ticket(e) => "Ticket error: ".to_owned().concat(e.message().as_str()),
            DomainError::RepositoryError(m) => "Repository error: ".to_owned().concat(m.as_str()),
            DomainError::ConcurrentModification => "Concurrent modification error".to_owned(),
            DomainError::Infrastructure(m) => "Infrastructure error: ".to_owned().concat(m.as_str()),
            DomainError::InvalidTicketId => "Invalid ticket id".to_owned(),
        }
    }
}

impl FromSpecImpl<TicketError> for DomainError {
    open spec fn obeys_from_spec() -> bool {
        true
    }

    open spec fn from_spec(e: TicketError) -> DomainError {
        DomainError::Ticket(e)
    }
}

impl From<TicketError> for DomainError {
    fn from(e: TicketError) -> (r: DomainError) {
        DomainError::Ticket(e)
    }
}

} // verus!

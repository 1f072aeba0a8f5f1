use vstd::prelude::*;

verus! {

/// What can be wrong with a ticket or with a request about one.
#[derive(Debug, Clone, Copy, PartialEq, Eq, Structural)]
pub enum TicketError {
    EmptyTitle,
    TooLongTitle,
    EmptyDescription,
    TooLongDescription,
    NotFound,
    InvalidStatus,
}

impl TicketError {
    /// The sentence shown to a person for each error.
    pub open spec fn message_text(self) -> Seq<char> {
        match self {
            TicketError::EmptyTitle => "Ticket title cannot be empty"@,
            TicketError::TooLongTitle => "Ticket title cannot be longer than 100 characters"@,
            TicketError::EmptyDescription => "Ticket description cannot be empty"@,
            TicketError::TooLongDescription => "Ticket description cannot be longer than 200 characters"@,
            TicketError::NotFound => "Ticket not found"@,
            TicketError::InvalidStatus => "Invalid usecase status"@,
        }
    }

    /// The sentence shown to a person for this error.
    pub fn message(&self) -> (r: String)
        ensures
            r@ == self.message_text(),
    {
        match self {
            TicketError::EmptyTitle => "Ticket title cannot be empty".to_owned(),
            TicketError::TooLongTitle => "Ticket title cannot be longer than 100 characters".to_owned(),
            TicketError::EmptyDescription => "Ticket description cannot be empty".to_owned(),
            TicketError::TooLongDescription => "Ticket description cannot be longer than 200 characters".to_owned(),
            TicketError::NotFound => "Ticket not found".to_owned(),
            TicketError::InvalidStatus => "Invalid usecase status".to_owned(),
        }
    }
}

} // verus!

use crate::domain::error::DomainError;
use crate::domain::tickets::ticket::Ticket;
use crate::domain::tickets::ticket_row::{row_of, ticket_of, TicketRow};
use vstd::prelude::*;

verus! {

/// The row that the first write of a ticket stores: always with version 0.
pub fn insert_parameters(ticket: &Ticket) -> (r: TicketRow)
    ensures
        r.id == ticket@.id,
        r@ == row_of(ticket@.with_version(0)),
{
    let mut row = TicketRow::from_ticket(ticket);
    row.version = 0;
    row
}

/// The values that a conditional write sends: the row takes all of them but the
/// version, which is the one that the stored row must have to match.
pub fn save_parameters(ticket: &Ticket) -> (r: TicketRow)
    ensures
        r.id == ticket@.id,
        r@ == row_of(ticket@),
{
    TicketRow::from_ticket(ticket)
}

/// What a lookup returns for what the backend fetched: a fault keeps its message, no
/// row is `Ok(None)`, and a row gives the ticket that it holds or the reason why it
/// holds none.
pub fn find_outcome(fetched: Result<Option<TicketRow>, String>) -> (r: Result<
    Option<Ticket>,
    DomainError,
>)
    ensures
        match fetched {
            Err(message) => r == Err::<Option<Ticket>, DomainError>(
                DomainError::RepositoryError(message),
            ),
            Ok(None) => r == Ok::<Option<Ticket>, DomainError>(None),
            Ok(Some(row)) => match ticket_of(row.id, row@) {
                Ok(ticket) => r matches Ok(Some(t)) && t@ == ticket,
                Err(cause) => r == Err::<Option<Ticket>, DomainError>(DomainError::Ticket(cause)),
            },
        },
{
    match fetched {
        Err(message) => Err(DomainError::RepositoryError(message)),
        Ok(None) => Ok(None),
        Ok(Some(row)) => match row.into_ticket() {
            Ok(ticket) => Ok(Some(ticket)),
            Err(e) => Err(e),
        },
    }
}

/// What a first write returns for what the backend reported: a fault, such as a taken
/// identifier, keeps its message.
pub fn insert_outcome(executed: Result<u64, String>) -> (r: Result<(), DomainError>)
    ensures
        match executed {
            Ok(_) => r == Ok::<(), DomainError>(()),
            Err(message) => r == Err::<(), DomainError>(DomainError::RepositoryError(message)),
        },
{
    match executed {
        Ok(_) => Ok(()),
        Err(message) => Err(DomainError::RepositoryError(message)),
    }
}

/// What a conditional write returns for what the backend reported: no row affected
/// means that the ticket was changed in the meantime.
pub fn save_outcome(executed: Result<u64, String>) -> (r: Result<(), DomainError>)
    ensures
        match executed {
            Ok(rows_affected) => if rows_affected == 0 {
                r == Err::<(), DomainError>(DomainError::ConcurrentModification)
            } else {
                r == Ok::<(), DomainError>(())
            },
            Err(message) => r == Err::<(), DomainError>(DomainError::RepositoryError(message)),
        },
{
    match executed {
        Ok(rows_affected) => {
            if rows_affected == 0 {
                Err(DomainError::ConcurrentModification)
            } else {
                Ok(())
            }
        },
        Err(message) => Err(DomainError::RepositoryError(message)),
    }
}

} // verus!

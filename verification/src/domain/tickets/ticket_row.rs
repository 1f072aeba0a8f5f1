use crate::domain::error::DomainError;
use crate::domain::tickets::text::{lemma_trimmed_stays, spells};
use crate::domain::tickets::ticket::{reconstructed, Ticket, TicketView};
use crate::domain::tickets::ticket_error::TicketError;
use crate::domain::tickets::ticket_id::TicketId;
use crate::domain::tickets::ticket_status::TicketStatus;
use vstd::prelude::*;

verus! {

/// One stored ticket: the six columns of the table.
#[derive(Debug, PartialEq, Eq)]
pub struct TicketRow {
    pub id: u128,
    pub title: String,
    pub description: String,
    pub status: String,
    pub assignee: Option<u128>,
    pub version: i64,
}

/// What a row holds besides its identifier, as plain values. A table is a map from
/// identifiers to these.
pub struct RowView {
    pub title: Seq<char>,
    pub description: Seq<char>,
    pub status: Seq<char>,
    pub assignee: Option<u128>,
    pub version: int,
}

impl View for TicketRow {
    type V = RowView;

    open spec fn view(&self) -> RowView {
        RowView {
            title: self.title@,
            description: self.description@,
            status: self.status@,
            assignee: self.assignee,
            version: self.version as int,
        }
    }
}

impl Clone for TicketRow {
    fn clone(&self) -> (r: Self)
        ensures
            r == *self,
    {
        TicketRow {
            id: self.id,
            title: self.title.clone(),
            description: self.description.clone(),
            status: self.status.clone(),
            assignee: self.assignee,
            version: self.version,
        }
    }
}

/// The columns that hold a ticket: the status goes in as its word, everything else as
/// it is. The row is filed under the ticket's identifier.
pub open spec fn row_of(ticket: TicketView) -> RowView {
    RowView {
        title: ticket.title,
        description: ticket.description,
        status: ticket.status.tag(),
        assignee: ticket.assignee,
        version: ticket.version,
    }
}

/// The ticket that the row filed under `id` holds. The status is rebuilt from its
/// word, read without regard to case, and the assignee column; then the ticket is
/// rebuilt from the columns, its texts without the white space at their ends. A row
/// whose status cannot be rebuilt, or whose texts are no valid title or description,
/// holds no ticket.
pub open spec fn ticket_of(id: u128, row: RowView) -> Result<TicketView, TicketError> {
    match TicketStatus::of_word(row.status, row.assignee) {
        Err(e) => Err(e),
        Ok(status) => reconstructed(
            id,
            row.title,
            row.description,
            status,
            row.assignee,
            row.version,
        ),
    }
}

impl TicketRow {
    /// Writes a ticket down as a row.
    pub fn from_ticket(ticket: &Ticket) -> (r: TicketRow)
        ensures
            r.id == ticket@.id,
            r@ == row_of(ticket@),
    {
        TicketRow {
            id: ticket.id().value(),
            title: ticket.title(),
            description: ticket.description(),
            status: ticket.status().discriminator().to_owned(),
            assignee: ticket.assignee(),
            version: ticket.version(),
        }
    }

    /// Reads the ticket that a row holds.
    pub fn into_ticket(self) -> (r: Result<Ticket, DomainError>)
        ensures
            match r {
                Ok(t) => ticket_of(self.id, self@) == Ok::<TicketView, TicketError>(t@) && t.wf(),
                Err(e) => e matches DomainError::Ticket(cause) && ticket_of(self.id, self@) == Err::<
                    TicketView,
                    TicketError,
                >(cause),
            },
    {
        let status = match TicketStatus::from_columns(self.status.as_str(), self.assignee) {
            Ok(s) => s,
            Err(e) => return Err(DomainError::Ticket(e)),
        };
        match Ticket::reconstruct(
            TicketId::from(self.id),
            self.title,
            self.description,
            status,
            self.assignee,
            self.version,
        ) {
            Ok(t) => Ok(t),
            Err(e) => Err(DomainError::Ticket(e)),
        }
    }
}

/// A valid ticket that is written down and read again comes back as it was, but for
/// the assignee of a closed ticket, which is dropped.
pub proof fn lemma_row_round_trip(ticket: TicketView)
    requires
        ticket.wf(),
    ensures
        ticket_of(ticket.id, row_of(ticket)) == Ok::<TicketView, TicketError>(
            if ticket.status is Closed {
                ticket.with_assignee(None)
            } else {
                ticket
            },
        ),
{
    TicketStatus::lemma_word_round_trip(ticket.status, ticket.assignee);
    lemma_trimmed_stays(ticket.title);
    lemma_trimmed_stays(ticket.description);
}

/// A row whose status is the word `closed` is read without assignee, whatever its
/// assignee column holds.
pub proof fn lemma_closed_row_has_no_assignee(id: u128, row: RowView)
    requires
        spells(row.status, "closed"@),
    ensures
        ticket_of(id, row) matches Ok(ticket) ==> ticket.status is Closed && ticket.assignee
            is None,
{
    reveal_strlit("open");
    reveal_strlit("closed");
    assert("open"@.len() == 4);
    assert("closed"@.len() == 6);
}

/// A row whose status is the word `assigned` is read with the user of its assignee
/// column as the status's user and as the assignee; without that column it holds no
/// ticket.
pub proof fn lemma_assigned_row_needs_assignee(id: u128, row: RowView)
    requires
        spells(row.status, "assigned"@),
    ensures
        match row.assignee {
            Some(user_id) => ticket_of(id, row) matches Ok(ticket) ==> ticket.status
                == (TicketStatus::Assigned { user_id }) && ticket.assignee == Some(user_id),
            None => ticket_of(id, row) == Err::<TicketView, TicketError>(
                TicketError::InvalidStatus,
            ),
        },
{
    reveal_strlit("open");
    reveal_strlit("closed");
    reveal_strlit("assigned");
    assert("open"@.len() == 4);
    assert("closed"@.len() == 6);
    assert("assigned"@.len() == 8);
}

} // verus!

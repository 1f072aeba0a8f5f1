use crate::domain::error::DomainError;
use crate::domain::tickets::repository::{
    after_insert, after_save, can_insert, found, isolated, reliable, TicketRepository,
    UnitOfWork, UowFactory, UowFactoryExt,
};
use crate::domain::tickets::text::trimmed;
use crate::domain::tickets::ticket::{Ticket, TicketView};
use crate::domain::tickets::ticket_description::description_verdict;
use crate::domain::tickets::ticket_error::TicketError;
use crate::domain::tickets::ticket_id::{is_random_uuid, TicketId};
use crate::domain::tickets::ticket_row::RowView;
use crate::domain::tickets::ticket_status::TicketStatus;
use crate::domain::tickets::ticket_title::title_verdict;
use vstd::prelude::*;

verus! {

/// What validation says of the two texts of a new ticket: the title is judged first.
pub open spec fn texts_verdict(title: Seq<char>, description: Seq<char>) -> Result<
    (),
    TicketError,
> {
    match title_verdict(title) {
        Err(e) => Err(e),
        Ok(()) => description_verdict(description),
    }
}

/// The ticket that `create_ticket` writes under the identifier `id` for the two texts
/// that it was given.
pub open spec fn created(id: u128, title: Seq<char>, description: Seq<char>) -> TicketView {
    TicketView {
        id,
        title: trimmed(title),
        description: trimmed(description),
        status: TicketStatus::Open,
        assignee: None,
        version: 0,
    }
}

/// Whether an executor of this kind has neither faults of its own nor other writers
/// on its table. What it reports is then decided by the table alone.
pub open spec fn undisturbed<Fac: UowFactory>() -> bool {
    reliable::<Fac>() && isolated::<Fac>()
}

/// Writes a new ticket in one transaction and returns its identifier. On success the
/// table has the ticket's row, with version 0, and nothing else changed; on failure
/// the table is as it was. An undisturbed executor succeeds wherever the identifier is
/// free, and reports a taken identifier as a repository error.
pub fn store_new<Fac: UowFactory>(fac: &mut Fac, ticket: Ticket) -> (r: Result<u128, DomainError>)
    ensures
        match r {
            Ok(id) => id == ticket@.id && can_insert(old(fac).committed(), ticket@)
                && final(fac).committed() == after_insert(old(fac).committed(), ticket@),
            Err(e) => final(fac).committed() == old(fac).committed() && (e is RepositoryError || e
                is Infrastructure) && (undisturbed::<Fac>() ==> e is RepositoryError && !can_insert(
                old(fac).committed(),
                ticket@,
            )),
        },
        undisturbed::<Fac>() && can_insert(old(fac).committed(), ticket@) ==> r is Ok,
{
    let ticket_id = ticket.id();
    let ghost new_ticket = ticket@;
    let ghost before = fac.committed();
    let procedure = |unit: &mut Fac::Uow| -> (res: Result<(), DomainError>)
        ensures
            match res {
                Ok(()) => can_insert(old(unit).rows(), new_ticket) && final(unit).rows()
                    == after_insert(old(unit).rows(), new_ticket),
                Err(e) => e is RepositoryError && (undisturbed::<Fac>() ==> !can_insert(
                    old(unit).rows(),
                    new_ticket,
                )),
            },
        {
            let repo = unit.ticket_repo();
            repo.insert(ticket)
        };
    let done = fac.execute_in_transaction(procedure);
    proof {
        if done is Ok {
            let unit = choose|unit: &mut Fac::Uow|
                unit.rows() == before && final(unit).rows() == fac.committed()
                    && #[trigger] call_ensures(procedure, (unit,), done);
            assert(call_ensures(procedure, (unit,), done));
        } else if !(done->Err_0 is Infrastructure && !Fac::never_faults()) {
            let unit = choose|unit: &mut Fac::Uow|
                unit.rows() == before && #[trigger] call_ensures(procedure, (unit,), done);
            assert(call_ensures(procedure, (unit,), done));
        }
    }
    match done {
        Ok(()) => Ok(ticket_id.value()),
        Err(e) => Err(e),
    }
}

/// What `create_ticket` may report for a table and two texts, and what it then did.
/// `undisturbed` says whether the executor has neither faults of its own nor other
/// writers.
///
/// Texts that are no valid title and description are refused with the error that
/// validation gives them. Else a fresh identifier is drawn, and the outcome is that of
/// `store_new` for the new ticket under it: `Ok` comes with the identifier under which
/// the ticket is now stored, and an error is a fault of the backend or of the
/// executor; with an undisturbed executor the one failure left is an identifier that
/// was taken already. The table changes on `Ok` alone, and then by the one new row.
pub open spec fn creating(
    before: Map<u128, RowView>,
    title: Seq<char>,
    description: Seq<char>,
    r: Result<u128, DomainError>,
    after: Map<u128, RowView>,
    undisturbed: bool,
) -> bool {
    match texts_verdict(title, description) {
        Err(cause) => r == Err::<u128, DomainError>(DomainError::Ticket(cause)) && after == before,
        Ok(()) => match r {
            Ok(id) => {
                &&& is_random_uuid(id)
                &&& !before.contains_key(id)
                &&& after == after_insert(before, created(id, title, description))
            },
            Err(e) => {
                &&& after == before
                &&& e is RepositoryError || e is Infrastructure
                &&& undisturbed ==> e is RepositoryError && exists|taken: u128|
                    is_random_uuid(taken) && #[trigger] before.contains_key(taken)
            },
        },
    }
}

/// Creates a ticket and writes it in one transaction; returns its identifier. Texts
/// that are no valid title and description are refused before anything is asked of the
/// executor; else the ticket is made and handed to `store_new`.
pub fn create_ticket<Fac: UowFactory>(fac: &mut Fac, title: String, description: String) -> (r:
    Result<u128, DomainError>)
    ensures
        creating(
            old(fac).committed(),
            title@,
            description@,
            r,
            final(fac).committed(),
            undisturbed::<Fac>(),
        ),
{
    let ticket = match Ticket::new(title, description, None) {
        Ok(ticket) => ticket,
        Err(e) => {
            return Err(DomainError::Ticket(e));
        },
    };
    let ghost new_ticket = ticket@;
    let done = store_new(fac, ticket);
    proof {
        if done is Err && undisturbed::<Fac>() {
            assert(old(fac).committed().contains_key(new_ticket.id));
        }
    }
    done
}

/// What closing does to the ticket that a lookup gave: no ticket is `NotFound`, a
/// ticket comes back closed.
pub fn closed_copy(found: Option<Ticket>) -> (r: Result<Ticket, DomainError>)
    ensures
        match found {
            Some(ticket) => r matches Ok(closed) && closed@ == ticket@.with_status(
                TicketStatus::Closed,
            ) && ticket.wf(),
            None => r == Err::<Ticket, DomainError>(DomainError::Ticket(TicketError::NotFound)),
        },
{
    match found {
        Some(ticket) => {
            proof {
                use_type_invariant(&ticket);
            }
            let mut ticket = ticket;
            ticket.close();
            Ok(ticket)
        },
        None => Err(DomainError::Ticket(TicketError::NotFound)),
    }
}

/// What `close_ticket` may report for a table and an identifier, and what it then
/// did. `reliable` says whether neither the executor nor its repositories have faults
/// of their own, `isolated` whether its transactions are alone with their table.
///
/// `Ok` comes only where a ticket with this identifier was read, which is now stored
/// closed with its version raised by one; with an isolated executor it is the ticket
/// that the row held. `ConcurrentModification` comes only from an executor that is not
/// isolated: no lock is held between the read and the write, so the row may have been
/// changed in between, and then nothing is written and nothing is tried again. With an
/// isolated executor `NotFound` comes only where there is no row, and the reason why a
/// row holds no ticket only where it holds none. An executor that is reliable and
/// isolated reports a fault of its own only where the version cannot go up any more,
/// and succeeds wherever the row holds a ticket whose version can. The table changes
/// on `Ok` alone.
pub open spec fn closing(
    before: Map<u128, RowView>,
    id: u128,
    r: Result<(), DomainError>,
    after: Map<u128, RowView>,
    reliable: bool,
    isolated: bool,
) -> bool {
    &&& match r {
        Ok(()) => exists|ticket: TicketView|
            {
                &&& ticket.wf()
                &&& ticket.id == id
                &&& isolated ==> found(before, id) == Ok::<Option<TicketView>, TicketError>(
                    Some(ticket),
                )
                &&& after == #[trigger] after_save(before, ticket.with_status(TicketStatus::Closed))
            },
        Err(e) => after == before && match e {
            DomainError::Ticket(cause) => isolated ==> if before.contains_key(id) {
                found(before, id) == Err::<Option<TicketView>, TicketError>(cause)
            } else {
                cause == TicketError::NotFound
            },
            DomainError::RepositoryError(_) => reliable && isolated ==> (found(before, id)
                matches Ok(Some(ticket)) && ticket.version >= i64::MAX),
            DomainError::Infrastructure(_) => !reliable,
            DomainError::ConcurrentModification => !isolated,
            DomainError::InvalidTicketId => false,
        },
    }
    &&& reliable && isolated ==> (found(before, id) matches Ok(Some(ticket)) && ticket.version
        < i64::MAX ==> r is Ok)
}

/// Closes the ticket with this identifier in one transaction: looks it up, closes it
/// and writes it back on condition that its version is still the one that was read. A
/// conflict is reported to the caller, who may read again and retry.
pub fn close_ticket<Fac: UowFactory>(fac: &mut Fac, id: u128) -> (r: Result<(), DomainError>)
    ensures
        closing(
            old(fac).committed(),
            id,
            r,
            final(fac).committed(),
            reliable::<Fac>(),
            isolated::<Fac>(),
        ),
{
    let ghost before = fac.committed();
    let procedure = |unit: &mut Fac::Uow| -> (res: Result<(), DomainError>)
        ensures
            closing(
                old(unit).rows(),
                id,
                res,
                final(unit).rows(),
                reliable::<Fac>(),
                isolated::<Fac>(),
            ),
        {
            let repo = unit.ticket_repo();
            let looked_up = match repo.find_by_id(TicketId::from(id)) {
                Ok(looked_up) => looked_up,
                Err(e) => {
                    return Err(e);
                },
            };
            let ghost read = looked_up;
            let ticket = match closed_copy(looked_up) {
                Ok(ticket) => ticket,
                Err(e) => {
                    return Err(e);
                },
            };
            let ghost rows = repo.rows();
            let saved = repo.save(ticket);
            proof {
                if saved is Ok {
                    let seen = read->Some_0@;
                    assert(repo.rows() == after_save(rows, seen.with_status(TicketStatus::Closed)));
                }
            }
            saved
        };
    let r = fac.execute_in_transaction(procedure);
    proof {
        if r is Ok {
            let unit = choose|unit: &mut Fac::Uow|
                unit.rows() == before && final(unit).rows() == fac.committed()
                    && #[trigger] call_ensures(procedure, (unit,), r);
            assert(call_ensures(procedure, (unit,), r));
        } else if !(r->Err_0 is Infrastructure && !Fac::never_faults()) {
            let unit = choose|unit: &mut Fac::Uow|
                unit.rows() == before && #[trigger] call_ensures(procedure, (unit,), r);
            assert(call_ensures(procedure, (unit,), r));
        }
    }
    r
}

} // verus!

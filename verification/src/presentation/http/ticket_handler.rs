use crate::application::usecase::tickets::{closing, creating, undisturbed};
use crate::application::usecase;
use crate::domain::error::DomainError;
use crate::domain::tickets::repository::{isolated, reliable, UowFactory};
use crate::domain::tickets::ticket_id::{id_of_text, TicketId};
use crate::presentation::app_error::{body_of, status_of, Reply, ReplyView};
use vstd::prelude::*;

verus! {

/// The status code of a request that went through.
pub const OK: u16 = 200;

/// The status code of a request that made a new ticket.
pub const CREATED: u16 = 201;

/// The body of a request to create a ticket.
#[derive(Debug, PartialEq, Eq)]
pub struct CreateTicketRequest {
    pub title: String,
    pub description: String,
}

/// The reply to a request whose work ended with `outcome`: `success` where it went
/// through, else the report of its error.
pub open spec fn reply_of<T>(outcome: Result<T, DomainError>, success: u16) -> ReplyView {
    match outcome {
        Ok(_) => ReplyView { status: success, error: None },
        Err(e) => ReplyView { status: status_of(e@), error: Some(body_of(e@)) },
    }
}

/// Builds the reply for an outcome.
pub fn reply_to<T>(outcome: Result<T, DomainError>, success: u16) -> (r: Reply)
    ensures
        r@ == reply_of(outcome, success),
{
    match outcome {
        Ok(_) => Reply { status: success, error: None },
        Err(e) => e.into_response(),
    }
}

/// Handles a request to create a ticket: 201 where the ticket was written, else the
/// report of what went wrong.
pub fn create_ticket<Fac: UowFactory>(fac: &mut Fac, request: CreateTicketRequest) -> (r: Reply)
    ensures
        exists|outcome: Result<u128, DomainError>|
            #[trigger] creating(
                old(fac).committed(),
                request.title@,
                request.description@,
                outcome,
                final(fac).committed(),
                undisturbed::<Fac>(),
            ) && r@ == reply_of(outcome, CREATED),
{
    let outcome = usecase::tickets::create_ticket(fac, request.title, request.description);
    assert(creating(
        old(fac).committed(),
        request.title@,
        request.description@,
        outcome,
        fac.committed(),
        undisturbed::<Fac>(),
    ));
    reply_to(outcome, CREATED)
}

/// Handles a request to close the ticket that `id` names: 400 where `id` is no
/// identifier, with nothing asked of the executor; else 200 where the ticket was
/// closed, and the report of what went wrong where it was not: 409 for a ticket that
/// was changed between the read and the write.
pub fn close_ticket<Fac: UowFactory>(fac: &mut Fac, id: String) -> (r: Reply)
    ensures
        match id_of_text(id@) {
            Err(e) => r@ == reply_of(Err::<(), DomainError>(e), OK) && final(fac).committed()
                == old(fac).committed(),
            Ok(value) => exists|outcome: Result<(), DomainError>|
                #[trigger] closing(
                    old(fac).committed(),
                    value,
                    outcome,
                    final(fac).committed(),
                    reliable::<Fac>(),
                    isolated::<Fac>(),
                ) && r@ == reply_of(outcome, OK),
        },
{
    let ticket_id = match TicketId::try_from(id) {
        Ok(ticket_id) => ticket_id,
        Err(e) => {
            return e.into_response();
        },
    };
    let outcome = usecase::tickets::close_ticket(fac, ticket_id.value());
    assert(closing(
        old(fac).committed(),
        id_of_text(id@)->Ok_0,
        outcome,
        fac.committed(),
        reliable::<Fac>(),
        isolated::<Fac>(),
    ));
    reply_to(outcome, OK)
}

} // verus!

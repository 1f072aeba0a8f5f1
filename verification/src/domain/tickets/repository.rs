use crate::domain::error::{DomainError, DomainErrorView};
use crate::domain::tickets::ticket::{Ticket, TicketView};
use crate::domain::tickets::ticket_error::TicketError;
use crate::domain::tickets::ticket_id::TicketId;
use crate::domain::tickets::ticket_row::{lemma_row_round_trip, row_of, ticket_of, RowView};
use vstd::prelude::*;

verus! {

/// What looking a ticket up gives: nothing where no row has the identifier, else the
/// ticket that the row holds, or the reason why it holds none.
pub open spec fn found(table: Map<u128, RowView>, id: u128) -> Result<
    Option<TicketView>,
    TicketError,
> {
    if table.contains_key(id) {
        match ticket_of(id, table[id]) {
            Ok(ticket) => Ok(Some(ticket)),
            Err(e) => Err(e),
        }
    } else {
        Ok(None)
    }
}

/// A first write is possible where no row has the ticket's identifier yet.
pub open spec fn can_insert(table: Map<u128, RowView>, ticket: TicketView) -> bool {
    !table.contains_key(ticket.id)
}

/// The table after a first write: the ticket's row is added with version 0, whatever
/// version the ticket itself has.
pub open spec fn after_insert(table: Map<u128, RowView>, ticket: TicketView) -> Map<
    u128,
    RowView,
> {
    table.insert(ticket.id, row_of(ticket.with_version(0)))
}

/// A conditional write matches where a row has the ticket's identifier and the
/// ticket's version.
pub open spec fn can_save(table: Map<u128, RowView>, ticket: TicketView) -> bool {
    table.contains_key(ticket.id) && table[ticket.id].version == ticket.version
}

/// The table after a conditional write that matched: the row takes the ticket's
/// values, and its version goes up by one.
pub open spec fn after_save(table: Map<u128, RowView>, ticket: TicketView) -> Map<
    u128,
    RowView,
> {
    table.insert(ticket.id, row_of(ticket.with_version(ticket.version + 1)))
}

/// A ticket that was written for the first time is found under its identifier as it
/// was written, with version 0. (A closed ticket is read without assignee, so one that
/// has an assignee is left out here; `lemma_insert_then_find_closed` speaks of it.)
pub proof fn lemma_insert_then_find(table: Map<u128, RowView>, ticket: TicketView)
    requires
        ticket.wf(),
        ticket.status is Closed ==> ticket.assignee is None,
    ensures
        found(after_insert(table, ticket), ticket.id) == Ok::<Option<TicketView>, TicketError>(
            Some(ticket.with_version(0)),
        ),
{
    lemma_row_round_trip(ticket.with_version(0));
}

/// A closed ticket that was written for the first time is found with version 0 and
/// without assignee, whoever its assignee was.
pub proof fn lemma_insert_then_find_closed(table: Map<u128, RowView>, ticket: TicketView)
    requires
        ticket.wf(),
        ticket.status is Closed,
    ensures
        found(after_insert(table, ticket), ticket.id) == Ok::<Option<TicketView>, TicketError>(
            Some(ticket.with_version(0).with_assignee(None)),
        ),
{
    lemma_row_round_trip(ticket.with_version(0));
}

/// A first write changes no other row: what is found under another identifier is
/// what was found before.
pub proof fn lemma_insert_keeps_others(table: Map<u128, RowView>, ticket: TicketView, other: u128)
    requires
        other != ticket.id,
    ensures
        found(after_insert(table, ticket), other) == found(table, other),
{
}

/// A ticket that was read and written back is found with its new values and with the
/// version one higher than the one that was read.
pub proof fn lemma_save_then_find(table: Map<u128, RowView>, ticket: TicketView)
    requires
        ticket.wf(),
        ticket.status is Closed ==> ticket.assignee is None,
    ensures
        found(after_save(table, ticket), ticket.id) == Ok::<Option<TicketView>, TicketError>(
            Some(ticket.with_version(ticket.version + 1)),
        ),
{
    lemma_row_round_trip(ticket.with_version(ticket.version + 1));
}

/// Lost updates are detected. Two copies of a ticket were read at the same version.
/// Once one of them has been written back, the other one no longer matches, whatever
/// it holds: its conditional write affects no row, and the row stays as the first
/// write left it.
pub proof fn lemma_stale_save_is_refused(
    table: Map<u128, RowView>,
    first: TicketView,
    stale: TicketView,
)
    requires
        can_save(table, first),
        stale.id == first.id,
        stale.version == first.version,
    ensures
        can_save(table, stale),
        !can_save(after_save(table, first), stale),
        after_save(table, first)[stale.id].version == stale.version + 1,
{
}

/// The ticket operations of one transaction.
pub trait TicketRepository {
    /// The table as this transaction made it: the table that it began on, with its own
    /// writes. A write of one handle is seen at once by every handle of the same unit of
    /// work. An implementation states what its rows are; one that does not has said
    /// nothing that a proof could use.
    open spec fn rows(&self) -> Map<u128, RowView> {
        arbitrary()
    }

    /// Whether repositories of this kind have no faults of their own. Their operations
    /// then fail only where the statement cannot apply. Nothing of the kind is taken
    /// for granted: an implementation has to say so.
    open spec fn never_faults() -> bool {
        false
    }

    /// Whether a transaction of this kind is alone with its table: what it reads, and
    /// what a conditional write is matched against, is `rows` and nothing else. Where
    /// it is not, no lock is held between a read and a write, and another transaction
    /// may have committed a change of the row in between: a lookup then returns what it
    /// met, and a conditional write may find that the row no longer matches. Nothing of
    /// the kind is taken for granted: an implementation has to say so.
    open spec fn isolated() -> bool {
        false
    }

    /// Looks a ticket up. That there is none is no error here: it is `Ok(None)`. A
    /// ticket that is found has the identifier that was asked for.
    fn find_by_id(&self, id: TicketId) -> (r: Result<Option<Ticket>, DomainError>)
        ensures
            r matches Ok(Some(ticket)) ==> ticket@.id == id@,
            r matches Err(e) ==> (e is RepositoryError && !Self::never_faults()) || e is Ticket,
            Self::isolated() ==> match r {
                Ok(Some(ticket)) => found(self.rows(), id@) == Ok::<Option<TicketView>, TicketError>(
                    Some(ticket@),
                ),
                Ok(None) => !self.rows().contains_key(id@),
                Err(e) => e is RepositoryError || (e matches DomainError::Ticket(cause) && found(
                    self.rows(),
                    id@,
                ) == Err::<Option<TicketView>, TicketError>(cause)),
            },
    ;

    /// The first write of a ticket. It fails, with nothing written, where the
    /// identifier is taken or the backend reports a fault.
    fn insert(&mut self, ticket: Ticket) -> (r: Result<(), DomainError>)
        ensures
            match r {
                Ok(()) => can_insert(old(self).rows(), ticket@) && final(self).rows()
                    == after_insert(old(self).rows(), ticket@),
                Err(e) => e is RepositoryError && final(self).rows() == old(self).rows(),
            },
            Self::never_faults() && Self::isolated() && can_insert(old(self).rows(), ticket@)
                ==> r is Ok,
    ;

    /// The conditional write of a ticket that was read before. Where no row has its
    /// identifier and version, nothing is written and the error is
    /// `ConcurrentModification`: the ticket was changed since it was read. Nothing is
    /// tried again.
    fn save(&mut self, ticket: Ticket) -> (r: Result<(), DomainError>)
        ensures
            match r {
                Ok(()) => final(self).rows() == after_save(old(self).rows(), ticket@) && (
                Self::isolated() ==> can_save(old(self).rows(), ticket@)),
                Err(e) => final(self).rows() == old(self).rows() && (e is RepositoryError || e
                    is ConcurrentModification) && (Self::isolated() && e is ConcurrentModification
                    ==> !can_save(old(self).rows(), ticket@)),
            },
            Self::never_faults() && Self::isolated() && !can_save(old(self).rows(), ticket@) ==> r
                == Err::<(), DomainError>(DomainError::ConcurrentModification),
            Self::never_faults() && Self::isolated() && can_save(old(self).rows(), ticket@)
                && ticket@.version < i64::MAX ==> r is Ok,
    ;
}

/// A scope bound to one open transaction. The repository that it lends works on that
/// transaction. A procedure gets a unit of work on loan, so it cannot finish the
/// transaction: that is left to whoever began it.
pub trait UnitOfWork {
    type Repo: TicketRepository;

    /// The table as the transaction sees it.
    open spec fn rows(&self) -> Map<u128, RowView> {
        arbitrary()
    }

    fn ticket_repo(&mut self) -> (r: &mut Self::Repo)
        ensures
            r.rows() == old(self).rows(),
            final(self).rows() == final(r).rows(),
    ;
}

/// A result that crosses the transaction boundary without its type: one of the few
/// kinds of value that a procedure hands back.
pub enum Erased {
    Unit,
    Id(TicketId),
    Ticket(Ticket),
}

/// A type whose values can cross the transaction boundary as an `Erased` and be
/// recovered on the other side.
pub trait Erasable: Sized {
    spec fn erased(self) -> Erased;

    fn erase(self) -> (e: Erased)
        ensures
            e == self.erased(),
    ;

    /// The checked way back: a value only where `e` is the erased form of one, else `e`
    /// itself, untouched.
    fn restore(e: Erased) -> (r: Result<Self, Erased>)
        ensures
            match r {
                Ok(value) => value.erased() == e,
                Err(back) => back == e && forall|value: Self| value.erased() != e,
            },
    ;

    /// Two values with the same erased form are the same value.
    proof fn lemma_erased_is_injective(a: Self, b: Self)
        requires
            a.erased() == b.erased(),
        ensures
            a == b,
    ;
}

impl Erasable for () {
    open spec fn erased(self) -> Erased {
        Erased::Unit
    }

    fn erase(self) -> (e: Erased) {
        Erased::Unit
    }

    fn restore(e: Erased) -> (r: Result<Self, Erased>) {
        match e {
            Erased::Unit => Ok(()),
            other => Err(other),
        }
    }

    proof fn lemma_erased_is_injective(a: Self, b: Self) {
    }
}

impl Erasable for TicketId {
    open spec fn erased(self) -> Erased {
        Erased::Id(self)
    }

    fn erase(self) -> (e: Erased) {
        Erased::Id(self)
    }

    fn restore(e: Erased) -> (r: Result<Self, Erased>) {
        match e {
            Erased::Id(id) => Ok(id),
            other => Err(other),
        }
    }

    proof fn lemma_erased_is_injective(a: Self, b: Self) {
    }
}

impl Erasable for Ticket {
    open spec fn erased(self) -> Erased {
        Erased::Ticket(self)
    }

    fn erase(self) -> (e: Erased) {
        Erased::Ticket(self)
    }

    fn restore(e: Erased) -> (r: Result<Self, Erased>) {
        match e {
            Erased::Ticket(ticket) => Ok(ticket),
            other => Err(other),
        }
    }

    proof fn lemma_erased_is_injective(a: Self, b: Self) {
    }
}

/// Whether neither an executor of this kind nor its repositories have faults of
/// their own.
pub open spec fn reliable<Fac: UowFactory>() -> bool {
    Fac::never_faults() && <<Fac::Uow as UnitOfWork>::Repo as TicketRepository>::never_faults()
}

/// Whether the transactions of an executor of this kind are alone with their table.
pub open spec fn isolated<Fac: UowFactory>() -> bool {
    <<Fac::Uow as UnitOfWork>::Repo as TicketRepository>::isolated()
}

/// The transaction executor.
pub trait UowFactory {
    type Uow: UnitOfWork;

    /// The table as the transactions of this executor made it. With an isolated
    /// executor that is all that a transaction begun now starts on; one that is not
    /// isolated shares its table, and its transactions may meet what others
    /// committed.
    open spec fn committed(&self) -> Map<u128, RowView> {
        arbitrary()
    }

    /// Whether executors of this kind have no faults of their own: a transaction can
    /// always be begun and committed.
    open spec fn never_faults() -> bool {
        false
    }

    /// Begins a transaction, runs `f` on its unit of work, and commits if `f` succeeded,
    /// else rolls back. The caller gets either what `f` returned, with all that `f`
    /// wrote committed, or an error, with the table as it was: the error of `f`
    /// unchanged, or an `Infrastructure` error where the transaction could not be begun
    /// or committed.
    fn execute_raw<F: FnOnce(&mut Self::Uow) -> Result<Erased, DomainError>>(
        &mut self,
        f: F,
    ) -> (r: Result<Erased, DomainError>)
        requires
            forall|unit: &mut Self::Uow|
                unit.rows() == old(self).committed() ==> call_requires(f, (unit,)),
        ensures
            r is Ok ==> exists|unit: &mut Self::Uow|
                unit.rows() == old(self).committed() && final(unit).rows() == final(self).committed()
                    && #[trigger] call_ensures(f, (unit,), r),
            r matches Err(e) ==> final(self).committed() == old(self).committed() && ((e
                is Infrastructure && !Self::never_faults()) || exists|unit: &mut Self::Uow|
                unit.rows() == old(self).committed() && #[trigger] call_ensures(f, (unit,), r)),
    ;
}

/// The message of the error for an erased value that is not of the type asked for.
pub open spec fn downcast_message() -> Seq<char> {
    "Downcast failed"@
}

/// The checked way back across the transaction boundary, for whatever the executor
/// returned. An error is handed on unchanged. An erased value is recovered where it is
/// one of `T`; where it is not, the call fails with an `Infrastructure` error and
/// nothing is made up.
pub fn recover<T: Erasable>(raw: Result<Erased, DomainError>) -> (r: Result<T, DomainError>)
    ensures
        match raw {
            Err(e) => r == Err::<T, DomainError>(e),
            Ok(e) => match r {
                Ok(value) => value.erased() == e,
                Err(err) => err@ == DomainErrorView::Infrastructure(downcast_message())
                    && forall|value: T| value.erased() != e,
            },
        },
{
    match raw {
        Err(e) => Err(e),
        Ok(e) => match T::restore(e) {
            Ok(value) => Ok(value),
            Err(_) => Err(DomainError::Infrastructure("Downcast failed".to_owned())),
        },
    }
}

/// The typed face of the executor: each caller picks the type of its result, and the
/// value crosses `execute_raw` as an `Erased`.
pub trait UowFactoryExt: UowFactory {
    /// Runs `f` as `execute_raw` does and recovers its result with `recover`. Should
    /// the erased value not be one of `T`, the call fails with an `Infrastructure`
    /// error; with an executor that keeps the contract of `execute_raw` this cannot
    /// happen.
    fn execute_in_transaction<T: Erasable, F: FnOnce(&mut Self::Uow) -> Result<T, DomainError>>(
        &mut self,
        f: F,
    ) -> (r: Result<T, DomainError>)
        requires
            forall|unit: &mut Self::Uow|
                unit.rows() == old(self).committed() ==> call_requires(f, (unit,)),
        ensures
            r is Ok ==> exists|unit: &mut Self::Uow|
                unit.rows() == old(self).committed() && final(unit).rows() == final(self).committed()
                    && #[trigger] call_ensures(f, (unit,), r),
            r matches Err(e) ==> final(self).committed() == old(self).committed() && ((e
                is Infrastructure && !Self::never_faults()) || exists|unit: &mut Self::Uow|
                unit.rows() == old(self).committed() && #[trigger] call_ensures(f, (unit,), r)),
    {
        let ghost before = self.committed();
        let wrapped = |unit: &mut Self::Uow| -> (res: Result<Erased, DomainError>)
            requires
                unit.rows() == before,
            ensures
                match res {
                    Ok(e) => exists|value: T, inner: &mut Self::Uow|
                        e == value.erased() && *inner == *old(unit) && *final(inner) == *final(unit)
                            && #[trigger] call_ensures(f, (inner,), Ok::<T, DomainError>(value)),
                    Err(e) => exists|inner: &mut Self::Uow|
                        *inner == *old(unit) && #[trigger] call_ensures(
                            f,
                            (inner,),
                            Err::<T, DomainError>(e),
                        ),
                },
        {
            match f(unit) {
                Ok(value) => Ok(value.erase()),
                Err(e) => Err(e),
            }
        };
        let raw = self.execute_raw(wrapped);
        proof {
            if raw is Ok {
                let unit = choose|unit: &mut Self::Uow|
                    unit.rows() == before && final(unit).rows() == self.committed()
                        && #[trigger] call_ensures(wrapped, (unit,), raw);
                assert(call_ensures(wrapped, (unit,), raw));
                let (value, inner) = choose|value: T, inner: &mut Self::Uow|
                    raw->Ok_0 == value.erased() && *inner == *unit && *final(inner) == *final(unit)
                        && #[trigger] call_ensures(f, (inner,), Ok::<T, DomainError>(value));
                assert forall|other: T| other.erased() == raw->Ok_0 implies other == value by {
                    T::lemma_erased_is_injective(other, value);
                }
                assert(call_ensures(f, (inner,), Ok::<T, DomainError>(value)));
            } else if !(raw->Err_0 is Infrastructure && !Self::never_faults()) {
                let unit = choose|unit: &mut Self::Uow|
                    unit.rows() == before && #[trigger] call_ensures(wrapped, (unit,), raw);
                assert(call_ensures(wrapped, (unit,), raw));
                let inner = choose|inner: &mut Self::Uow|
                    *inner == *unit && #[trigger] call_ensures(
                        f,
                        (inner,),
                        Err::<T, DomainError>(raw->Err_0),
                    );
                assert(call_ensures(f, (inner,), Err::<T, DomainError>(raw->Err_0)));
            }
        }
        recover(raw)
    }
}

impl<X: UowFactory> UowFactoryExt for X {

}

} // verus!

use crate::domain::error::DomainError;
use crate::domain::tickets::repository::{Erased, TicketRepository, UnitOfWork, UowFactory};
use crate::domain::tickets::ticket::Ticket;
use crate::domain::tickets::ticket_id::TicketId;
use crate::domain::tickets::ticket_row::RowView;
use crate::infrastructure::repository::memory_table::MemoryTable;
use crate::infrastructure::repository::statement::{
    find_outcome, insert_outcome, insert_parameters, save_outcome, save_parameters,
};
use crate::infrastructure::repository::transaction::{step, Action, Event, Phase};
use vstd::prelude::*;

verus! {

/// The ticket operations of one transaction on a table in memory. This backend has no
/// faults of its own and no other writers, so each operation fails only where its
/// statement cannot apply.
pub struct MemoryTicketRepository {
    table: MemoryTable,
}

impl TicketRepository for MemoryTicketRepository {
    closed spec fn rows(&self) -> Map<u128, RowView> {
        self.table@
    }

    open spec fn never_faults() -> bool {
        true
    }

    open spec fn isolated() -> bool {
        true
    }

    fn find_by_id(&self, id: TicketId) -> (r: Result<Option<Ticket>, DomainError>) {
        find_outcome(Ok(self.table.select(id.value())))
    }

    fn insert(&mut self, ticket: Ticket) -> (r: Result<(), DomainError>) {
        insert_outcome(self.table.insert(insert_parameters(&ticket)))
    }

    fn save(&mut self, ticket: Ticket) -> (r: Result<(), DomainError>) {
        save_outcome(self.table.update(save_parameters(&ticket)))
    }
}

/// One open transaction on a table in memory: it works on a copy of the table as it
/// was when the transaction began.
pub struct MemoryUnitOfWork {
    repo: MemoryTicketRepository,
}

impl UnitOfWork for MemoryUnitOfWork {
    type Repo = MemoryTicketRepository;

    closed spec fn rows(&self) -> Map<u128, RowView> {
        self.repo.rows()
    }

    fn ticket_repo(&mut self) -> (r: &mut MemoryTicketRepository) {
        &mut self.repo
    }
}

/// The executor on a table in memory. A transaction is a copy of the table; a commit
/// puts the copy in the table's place, and a rollback drops it.
pub struct MemoryUowFactory {
    table: MemoryTable,
}

impl MemoryUowFactory {
    /// An executor on an empty table.
    pub fn new() -> (r: Self)
        ensures
            r.committed() == Map::<u128, RowView>::empty(),
    {
        MemoryUowFactory { table: MemoryTable::new() }
    }

    /// The table as committed so far.
    pub fn table(&self) -> (r: &MemoryTable)
        ensures
            r@ == self.committed(),
    {
        &self.table
    }
}

impl UowFactory for MemoryUowFactory {
    type Uow = MemoryUnitOfWork;

    closed spec fn committed(&self) -> Map<u128, RowView> {
        self.table@
    }

    open spec fn never_faults() -> bool {
        true
    }

    /// Here nothing but the procedure can fail: an error is always the error of `f`.
    fn execute_raw<F: FnOnce(&mut MemoryUnitOfWork) -> Result<Erased, DomainError>>(
        &mut self,
        f: F,
    ) -> (r: Result<Erased, DomainError>) {
        let (phase, action) = step(Phase::Idle, Event::Requested);
        assert(action is Begin);
        let mut unit = MemoryUnitOfWork {
            repo: MemoryTicketRepository { table: self.table.clone() },
        };
        let (phase, action) = step(phase, Event::Began);
        assert(action is RunProcedure);
        assert(self.committed() == old(self).committed());
        assert(unit.rows() == self.committed());
        let outcome = f(&mut unit);
        let event = match outcome {
            Ok(value) => Event::Succeeded { value, sole_owner: true },
            Err(e) => Event::Failed(e),
        };
        let (phase, action) = step(phase, event);
        match action {
            Action::Commit => {
                self.table = unit.repo.table;
                let (_, last) = step(phase, Event::Committed);
                last.into_result()
            },
            Action::Rollback => {
                let (_, last) = step(phase, Event::RolledBack);
                last.into_result()
            },
            _ => vstd::pervasive::unreached(),
        }
    }
}

} // verus!

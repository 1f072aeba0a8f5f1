use ticket_core::application::usecase::tickets::{close_ticket, create_ticket};
use ticket_core::domain::error::DomainError;
use ticket_core::domain::tickets::repository::{
    Erased, TicketRepository, UnitOfWork, UowFactory, UowFactoryExt,
};
use ticket_core::domain::tickets::ticket::Ticket;
use ticket_core::domain::tickets::ticket_id::TicketId;
use ticket_core::infrastructure::repository::memory_table::MemoryTable;
use ticket_core::infrastructure::repository::statement::{
    find_outcome, insert_outcome, insert_parameters, save_outcome, save_parameters,
};
use ticket_core::infrastructure::repository::transaction::{step, Action, Event, Phase};
use ticket_core::presentation::app_error::Reply;
use ticket_core::presentation::http::ticket_handler;

/// A backend that is not alone with its table: whenever `race` is set, another writer
/// commits a change of the row between this transaction's read and its write.
struct SharedRepository {
    table: MemoryTable,
    race: bool,
}

impl TicketRepository for SharedRepository {
    fn find_by_id(&self, id: TicketId) -> Result<Option<Ticket>, DomainError> {
        find_outcome(Ok(self.table.select(id.value())))
    }

    fn insert(&mut self, ticket: Ticket) -> Result<(), DomainError> {
        insert_outcome(self.table.insert(insert_parameters(&ticket)))
    }

    fn save(&mut self, ticket: Ticket) -> Result<(), DomainError> {
        if self.race {
            if let Some(mut theirs) = self.table.select(ticket.id().value()) {
                theirs.status = "assigned".to_string();
                theirs.assignee = Some(77);
                assert_eq!(self.table.update(theirs), Ok(1));
            }
        }
        save_outcome(self.table.update(save_parameters(&ticket)))
    }
}

struct SharedUnitOfWork {
    repo: SharedRepository,
}

impl UnitOfWork for SharedUnitOfWork {
    type Repo = SharedRepository;

    fn ticket_repo(&mut self) -> &mut SharedRepository {
        &mut self.repo
    }
}

struct SharedFactory {
    table: MemoryTable,
    race: bool,
    runs: u32,
}

impl UowFactory for SharedFactory {
    type Uow = SharedUnitOfWork;

    fn execute_raw<F: FnOnce(&mut SharedUnitOfWork) -> Result<Erased, DomainError>>(
        &mut self,
        f: F,
    ) -> Result<Erased, DomainError> {
        self.runs += 1;
        let mut procedure = Some(f);
        let mut unit: Option<SharedUnitOfWork> = None;
        let (mut phase, mut action) = step(Phase::Idle, Event::Requested);
        loop {
            let event = match action {
                Action::Begin => {
                    unit = Some(SharedUnitOfWork {
                        repo: SharedRepository { table: self.table.clone(), race: self.race },
                    });
                    Event::Began
                }
                Action::RunProcedure => {
                    let run = procedure.take().unwrap();
                    match run(unit.as_mut().unwrap()) {
                        Ok(value) => Event::Succeeded { value, sole_owner: true },
                        Err(e) => Event::Failed(e),
                    }
                }
                Action::Commit => {
                    self.table = unit.take().unwrap().repo.table;
                    Event::Committed
                }
                Action::Rollback => {
                    // What the other writer committed stays; what this transaction
                    // wrote is dropped.
                    let dropped = unit.take().unwrap().repo;
                    if dropped.race {
                        self.table = dropped.table;
                    }
                    Event::RolledBack
                }
                Action::Return(result) => return result,
            };
            (phase, action) = step(phase, event);
        }
    }
}

fn shared(race: bool) -> SharedFactory {
    SharedFactory { table: MemoryTable::new(), race, runs: 0 }
}

#[test]
fn close_reports_a_conflict_when_the_row_changed_in_between() {
    let mut fac = shared(false);
    let id = create_ticket(&mut fac, "Fix bug".to_string(), "NPE in handler".to_string())
        .unwrap();
    fac.race = true;
    fac.runs = 0;
    assert_eq!(close_ticket(&mut fac, id), Err(DomainError::ConcurrentModification));
    assert_eq!(fac.runs, 1);
    let theirs = fac.table.select(id).unwrap();
    assert_eq!(theirs.status, "assigned");
    assert_eq!(theirs.assignee, Some(77));
    assert_eq!(theirs.version, 1);
    assert_eq!(theirs.title, "Fix bug");
}

#[test]
fn close_after_a_conflict_succeeds_on_a_fresh_read() {
    let mut fac = shared(false);
    let id = create_ticket(&mut fac, "t".to_string(), "d".to_string()).unwrap();
    fac.race = true;
    assert_eq!(close_ticket(&mut fac, id), Err(DomainError::ConcurrentModification));
    fac.race = false;
    assert_eq!(close_ticket(&mut fac, id), Ok(()));
    let row = fac.table.select(id).unwrap();
    assert_eq!(row.status, "closed");
    assert_eq!(row.version, 2);
}

#[test]
fn conflict_is_answered_with_409() {
    let mut fac = shared(false);
    let id = create_ticket(&mut fac, "t".to_string(), "d".to_string()).unwrap();
    fac.race = true;
    let reply = ticket_handler::close_ticket(&mut fac, TicketId::from(id).to_string());
    assert_eq!(
        reply,
        Reply { status: 409, error: Some("Concurrent modification error".to_string()) }
    );
}

#[test]
fn executor_outside_the_library_is_recovered_by_the_checked_way() {
    struct Wrong;
    struct WrongUnit {
        repo: SharedRepository,
    }
    impl UnitOfWork for WrongUnit {
        type Repo = SharedRepository;

        fn ticket_repo(&mut self) -> &mut SharedRepository {
            &mut self.repo
        }
    }
    impl UowFactory for Wrong {
        type Uow = WrongUnit;

        fn execute_raw<F: FnOnce(&mut WrongUnit) -> Result<Erased, DomainError>>(
            &mut self,
            _f: F,
        ) -> Result<Erased, DomainError> {
            Ok(Erased::Unit)
        }
    }
    let r: Result<TicketId, DomainError> =
        Wrong.execute_in_transaction(|_unit: &mut WrongUnit| Ok(TicketId::from(1)));
    assert_eq!(r, Err(DomainError::Infrastructure("Downcast failed".to_string())));
}

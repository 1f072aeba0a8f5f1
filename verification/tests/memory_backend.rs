use ticket_core::application::usecase::tickets::{
    close_ticket, closed_copy, create_ticket, store_new,
};
use ticket_core::domain::error::DomainError;
use ticket_core::domain::tickets::repository::{
    recover, Erasable, Erased, TicketRepository, UnitOfWork, UowFactory, UowFactoryExt,
};
use ticket_core::domain::tickets::ticket::Ticket;
use ticket_core::domain::tickets::ticket_error::TicketError;
use ticket_core::domain::tickets::ticket_id::TicketId;
use ticket_core::domain::tickets::ticket_row::TicketRow;
use ticket_core::domain::tickets::ticket_status::TicketStatus;
use ticket_core::infrastructure::repository::memory_table::MemoryTable;
use ticket_core::infrastructure::repository::memory_ticket_repository::{
    MemoryUnitOfWork, MemoryUowFactory,
};

fn read(fac: &mut MemoryUowFactory, id: TicketId) -> Result<Ticket, DomainError> {
    fac.execute_in_transaction(move |uow: &mut MemoryUnitOfWork| {
        match uow.ticket_repo().find_by_id(id)? {
            Some(ticket) => Ok(ticket),
            None => Err(DomainError::Ticket(TicketError::NotFound)),
        }
    })
}

fn write_first(fac: &mut MemoryUowFactory, ticket: Ticket) -> Result<(), DomainError> {
    fac.execute_in_transaction(move |uow: &mut MemoryUnitOfWork| uow.ticket_repo().insert(ticket))
}

fn write_back(fac: &mut MemoryUowFactory, ticket: Ticket) -> Result<(), DomainError> {
    fac.execute_in_transaction(move |uow: &mut MemoryUnitOfWork| uow.ticket_repo().save(ticket))
}

fn sample_row(id: u128, version: i64) -> TicketRow {
    TicketRow {
        id,
        title: "Fix bug".to_string(),
        description: "NPE in handler".to_string(),
        status: "open".to_string(),
        assignee: None,
        version,
    }
}

#[test]
fn table_insert_select_update() {
    let mut table = MemoryTable::new();
    assert_eq!(table.len(), 0);
    assert_eq!(table.select(1), None);
    assert_eq!(table.insert(sample_row(1, 0)), Ok(1));
    assert_eq!(table.select(1), Some(sample_row(1, 0)));
    assert_eq!(table.select(2), None);
    let mut changed = sample_row(1, 0);
    changed.status = "closed".to_string();
    assert_eq!(table.update(changed.clone()), Ok(1));
    changed.version = 1;
    assert_eq!(table.select(1), Some(changed));
}

#[test]
fn table_refuses_a_taken_identifier() {
    let mut table = MemoryTable::new();
    assert_eq!(table.insert(sample_row(1, 0)), Ok(1));
    let mut other = sample_row(1, 0);
    other.title = "Other".to_string();
    assert_eq!(
        table.insert(other),
        Err("duplicate key value violates unique constraint".to_string())
    );
    assert_eq!(table.select(1), Some(sample_row(1, 0)));
}

#[test]
fn table_update_affects_no_row_without_a_match() {
    let mut table = MemoryTable::new();
    assert_eq!(table.update(sample_row(1, 0)), Ok(0));
    assert_eq!(table.select(1), None);
    assert_eq!(table.insert(sample_row(1, 4)), Ok(1));
    let mut stale = sample_row(1, 3);
    stale.title = "Stale".to_string();
    assert_eq!(table.update(stale), Ok(0));
    assert_eq!(table.select(1), Some(sample_row(1, 4)));
}

#[test]
fn table_update_fails_where_the_version_cannot_go_up() {
    let mut table = MemoryTable::new();
    assert_eq!(table.insert(sample_row(1, i64::MAX)), Ok(1));
    assert_eq!(table.update(sample_row(1, i64::MAX)), Err("version out of range".to_string()));
    assert_eq!(table.select(1), Some(sample_row(1, i64::MAX)));
}

#[test]
fn table_clone_is_independent() {
    let mut table = MemoryTable::new();
    assert_eq!(table.insert(sample_row(1, 0)), Ok(1));
    let mut copy = table.clone();
    assert_eq!(copy.insert(sample_row(2, 0)), Ok(1));
    assert_eq!(table.select(2), None);
    assert_eq!(copy.select(1), Some(sample_row(1, 0)));
}

#[test]
fn insert_then_find_returns_the_ticket_with_version_0() {
    let mut fac = MemoryUowFactory::new();
    let mut ticket = Ticket::new("Fix bug".to_string(), "NPE in handler".to_string(), Some(3))
        .unwrap();
    ticket.assign(12);
    let id = ticket.id();
    assert_eq!(write_first(&mut fac, ticket.clone()), Ok(()));
    let found = read(&mut fac, id).unwrap();
    assert_eq!(found.id(), id);
    assert_eq!(found.title(), "Fix bug");
    assert_eq!(found.description(), "NPE in handler");
    assert_eq!(found.status(), TicketStatus::Assigned { user_id: 12 });
    assert_eq!(found.assignee(), Some(12));
    assert_eq!(found.version(), 0);
}

#[test]
fn insert_writes_version_0_whatever_the_ticket_has() {
    let mut fac = MemoryUowFactory::new();
    let ticket = sample_row(5, 9).into_ticket().unwrap();
    assert_eq!(ticket.version(), 9);
    assert_eq!(write_first(&mut fac, ticket), Ok(()));
    assert_eq!(read(&mut fac, TicketId::from(5)).unwrap().version(), 0);
}

#[test]
fn insert_of_a_taken_identifier_is_a_repository_error() {
    let mut fac = MemoryUowFactory::new();
    let ticket = Ticket::new("t".to_string(), "d".to_string(), None).unwrap();
    assert_eq!(write_first(&mut fac, ticket.clone()), Ok(()));
    let mut again = ticket.clone();
    again.assign(1);
    assert_eq!(
        write_first(&mut fac, again),
        Err(DomainError::RepositoryError(
            "duplicate key value violates unique constraint".to_string()
        ))
    );
    assert_eq!(read(&mut fac, ticket.id()).unwrap().status(), TicketStatus::Open);
}

#[test]
fn find_of_an_unknown_identifier_is_no_error() {
    let mut fac = MemoryUowFactory::new();
    let r = fac.execute_in_transaction(|uow: &mut MemoryUnitOfWork| {
        match uow.ticket_repo().find_by_id(TicketId::from(77))? {
            Some(_) => Err(DomainError::InvalidTicketId),
            None => Ok(()),
        }
    });
    assert_eq!(r, Ok(()));
}

#[test]
fn save_raises_the_version_by_one() {
    let mut fac = MemoryUowFactory::new();
    let ticket = Ticket::new("t".to_string(), "d".to_string(), None).unwrap();
    let id = ticket.id();
    assert_eq!(write_first(&mut fac, ticket), Ok(()));
    let mut read_copy = read(&mut fac, id).unwrap();
    read_copy.assign(2);
    assert_eq!(write_back(&mut fac, read_copy), Ok(()));
    let after = read(&mut fac, id).unwrap();
    assert_eq!(after.version(), 1);
    assert_eq!(after.status(), TicketStatus::Assigned { user_id: 2 });
    let mut next = after.clone();
    next.close();
    assert_eq!(write_back(&mut fac, next), Ok(()));
    let last = read(&mut fac, id).unwrap();
    assert_eq!(last.version(), 2);
    assert_eq!(last.status(), TicketStatus::Closed);
    assert_eq!(last.assignee(), None);
}

#[test]
fn stale_save_is_a_conflict_and_leaves_the_row() {
    let mut fac = MemoryUowFactory::new();
    let ticket = Ticket::new("t".to_string(), "d".to_string(), None).unwrap();
    let id = ticket.id();
    assert_eq!(write_first(&mut fac, ticket), Ok(()));
    let mine = read(&mut fac, id).unwrap();
    let mut theirs = read(&mut fac, id).unwrap();
    theirs.assign(1);
    assert_eq!(write_back(&mut fac, theirs), Ok(()));
    let mut stale = mine;
    stale.close();
    assert_eq!(write_back(&mut fac, stale), Err(DomainError::ConcurrentModification));
    let row = read(&mut fac, id).unwrap();
    assert_eq!(row.version(), 1);
    assert_eq!(row.status(), TicketStatus::Assigned { user_id: 1 });
    assert_eq!(row.assignee(), Some(1));
}

#[test]
fn save_of_an_unknown_ticket_is_a_conflict() {
    let mut fac = MemoryUowFactory::new();
    let ticket = Ticket::new("t".to_string(), "d".to_string(), None).unwrap();
    assert_eq!(write_back(&mut fac, ticket), Err(DomainError::ConcurrentModification));
}

#[test]
fn writes_of_a_failing_procedure_are_not_visible() {
    let mut fac = MemoryUowFactory::new();
    let ticket = Ticket::new("t".to_string(), "d".to_string(), None).unwrap();
    let id = ticket.id();
    let r: Result<(), DomainError> = fac.execute_in_transaction(
        move |uow: &mut MemoryUnitOfWork| {
            uow.ticket_repo().insert(ticket)?;
            assert!(uow.ticket_repo().find_by_id(id)?.is_some());
            Err(DomainError::RepositoryError("later step failed".to_string()))
        },
    );
    assert_eq!(r, Err(DomainError::RepositoryError("later step failed".to_string())));
    assert_eq!(read(&mut fac, id).err(), Some(DomainError::Ticket(TicketError::NotFound)));
}

#[test]
fn writes_of_a_successful_procedure_are_visible() {
    let mut fac = MemoryUowFactory::new();
    let first = Ticket::new("a".to_string(), "d".to_string(), None).unwrap();
    let second = Ticket::new("b".to_string(), "d".to_string(), None).unwrap();
    let (first_id, second_id) = (first.id(), second.id());
    let r = fac.execute_in_transaction(move |uow: &mut MemoryUnitOfWork| {
        uow.ticket_repo().insert(first)?;
        uow.ticket_repo().insert(second)?;
        Ok(second_id)
    });
    assert_eq!(r, Ok(second_id));
    assert_eq!(read(&mut fac, first_id).unwrap().title(), "a");
    assert_eq!(read(&mut fac, second_id).unwrap().title(), "b");
}

#[test]
fn handles_of_one_unit_of_work_see_each_other() {
    let mut fac = MemoryUowFactory::new();
    let ticket = Ticket::new("t".to_string(), "d".to_string(), None).unwrap();
    let id = ticket.id();
    let r = fac.execute_in_transaction(move |uow: &mut MemoryUnitOfWork| {
        uow.ticket_repo().insert(ticket)?;
        let mut seen = uow.ticket_repo().find_by_id(id)?.unwrap();
        seen.close();
        uow.ticket_repo().save(seen)?;
        Ok(uow.ticket_repo().find_by_id(id)?.unwrap())
    });
    let seen = r.unwrap();
    assert_eq!(seen.version(), 1);
    assert_eq!(seen.status(), TicketStatus::Closed);
}

#[test]
fn execute_raw_hands_the_erased_value_through() {
    let mut fac = MemoryUowFactory::new();
    let r = fac.execute_raw(|_uow: &mut MemoryUnitOfWork| Ok(Erased::Id(TicketId::from(4))));
    assert!(matches!(r, Ok(Erased::Id(id)) if id == TicketId::from(4)));
    let r = fac.execute_raw(|_uow: &mut MemoryUnitOfWork| Err(DomainError::InvalidTicketId));
    assert!(matches!(r, Err(DomainError::InvalidTicketId)));
}

#[test]
fn erased_values_are_recovered_only_as_their_own_type() {
    assert!(matches!(().erase(), Erased::Unit));
    assert!(matches!(TicketId::from(1).erase(), Erased::Id(_)));
    assert_eq!(<()>::restore(Erased::Unit).ok(), Some(()));
    assert_eq!(TicketId::restore(Erased::Id(TicketId::from(1))).ok(), Some(TicketId::from(1)));
    assert!(matches!(TicketId::restore(Erased::Unit), Err(Erased::Unit)));
    assert!(matches!(<()>::restore(Erased::Id(TicketId::from(1))), Err(Erased::Id(_))));
    let ticket = Ticket::new("t".to_string(), "d".to_string(), None).unwrap();
    let id = ticket.id();
    assert!(matches!(Ticket::restore(Erased::Unit), Err(Erased::Unit)));
    let back = Ticket::restore(ticket.erase()).ok().unwrap();
    assert_eq!(back.id(), id);
}

#[test]
fn create_then_close_then_stale_close() {
    let mut fac = MemoryUowFactory::new();
    let id = create_ticket(&mut fac, "Fix bug".to_string(), "NPE in handler".to_string())
        .unwrap();
    let first_copy = read(&mut fac, TicketId::from(id)).unwrap();
    assert_eq!(first_copy.version(), 0);
    assert_eq!(first_copy.status(), TicketStatus::Open);
    assert_eq!(first_copy.title(), "Fix bug");
    assert_eq!(first_copy.description(), "NPE in handler");
    assert_eq!(first_copy.assignee(), None);

    assert_eq!(close_ticket(&mut fac, id), Ok(()));
    let closed = read(&mut fac, TicketId::from(id)).unwrap();
    assert_eq!(closed.version(), 1);
    assert_eq!(closed.status(), TicketStatus::Closed);

    let mut stale = first_copy;
    stale.close();
    assert_eq!(write_back(&mut fac, stale), Err(DomainError::ConcurrentModification));
    let still = read(&mut fac, TicketId::from(id)).unwrap();
    assert_eq!(still.version(), 1);
    assert_eq!(still.status(), TicketStatus::Closed);
}

#[test]
fn create_with_empty_title_writes_no_row() {
    let mut fac = MemoryUowFactory::new();
    let r = create_ticket(&mut fac, "".to_string(), "NPE in handler".to_string());
    assert_eq!(r, Err(DomainError::Ticket(TicketError::EmptyTitle)));
    assert_eq!(fac.table().len(), 0);

    let seeded = create_ticket(&mut fac, "a".to_string(), "b".to_string()).unwrap();
    let before = fac.table().select(seeded);
    let r = create_ticket(&mut fac, "   ".to_string(), "NPE in handler".to_string());
    assert_eq!(r, Err(DomainError::Ticket(TicketError::EmptyTitle)));
    assert_eq!(fac.table().len(), 1);
    assert_eq!(fac.table().select(seeded), before);
}

#[test]
fn create_writes_exactly_one_row() {
    let mut fac = MemoryUowFactory::new();
    let id = create_ticket(&mut fac, "Fix bug".to_string(), "NPE in handler".to_string())
        .unwrap();
    assert_eq!(fac.table().len(), 1);
    assert_eq!(
        fac.table().select(id),
        Some(TicketRow {
            id,
            title: "Fix bug".to_string(),
            description: "NPE in handler".to_string(),
            status: "open".to_string(),
            assignee: None,
            version: 0,
        })
    );
    assert_eq!(close_ticket(&mut fac, id), Ok(()));
    assert_eq!(fac.table().len(), 1);
    let row = fac.table().select(id).unwrap();
    assert_eq!(row.status, "closed");
    assert_eq!(row.version, 1);
}

#[test]
fn failed_procedure_leaves_the_table_as_it_was() {
    let mut fac = MemoryUowFactory::new();
    let id = create_ticket(&mut fac, "t".to_string(), "d".to_string()).unwrap();
    let before = fac.table().select(id);
    let r: Result<(), DomainError> = fac.execute_in_transaction(
        move |uow: &mut MemoryUnitOfWork| {
            let mut ticket = uow.ticket_repo().find_by_id(TicketId::from(id))?.unwrap();
            ticket.assign(9);
            uow.ticket_repo().save(ticket)?;
            let other = Ticket::new("x".to_string(), "y".to_string(), None).unwrap();
            uow.ticket_repo().insert(other)?;
            Err(DomainError::ConcurrentModification)
        },
    );
    assert_eq!(r, Err(DomainError::ConcurrentModification));
    assert_eq!(fac.table().len(), 1);
    assert_eq!(fac.table().select(id), before);
}

#[test]
fn create_stores_trimmed_texts() {
    let mut fac = MemoryUowFactory::new();
    let id = create_ticket(&mut fac, "  Fix bug  ".to_string(), " NPE in handler ".to_string())
        .unwrap();
    let row = fac.table().select(id).unwrap();
    assert_eq!(row.title, "Fix bug");
    assert_eq!(row.description, "NPE in handler");
}

#[test]
fn second_creation_succeeds() {
    let mut fac = MemoryUowFactory::new();
    let first = create_ticket(&mut fac, "a".to_string(), "b".to_string()).unwrap();
    let second = create_ticket(&mut fac, "a".to_string(), "b".to_string()).unwrap();
    assert_ne!(first, second);
    assert_eq!(fac.table().len(), 2);
}

#[test]
fn store_new_writes_the_ticket_under_its_identifier() {
    let mut fac = MemoryUowFactory::new();
    let mut ticket = Ticket::new("t".to_string(), "d".to_string(), None).unwrap();
    ticket.assign(3);
    let id = ticket.id().value();
    assert_eq!(store_new(&mut fac, ticket.clone()), Ok(id));
    let row = fac.table().select(id).unwrap();
    assert_eq!(row.status, "assigned");
    assert_eq!(row.assignee, Some(3));
    assert_eq!(row.version, 0);
    let before = fac.table().select(id);
    let taken = store_new(&mut fac, ticket);
    assert_eq!(
        taken,
        Err(DomainError::RepositoryError(
            "duplicate key value violates unique constraint".to_string()
        ))
    );
    assert_eq!(fac.table().len(), 1);
    assert_eq!(fac.table().select(id), before);
}

#[test]
fn recover_is_checked() {
    assert_eq!(recover::<()>(Ok(Erased::Unit)), Ok(()));
    assert_eq!(recover::<TicketId>(Ok(Erased::Id(TicketId::from(9)))), Ok(TicketId::from(9)));
    assert_eq!(
        recover::<TicketId>(Ok(Erased::Unit)),
        Err(DomainError::Infrastructure("Downcast failed".to_string()))
    );
    assert_eq!(
        recover::<()>(Ok(Erased::Id(TicketId::from(9)))),
        Err(DomainError::Infrastructure("Downcast failed".to_string()))
    );
    assert_eq!(
        recover::<Ticket>(Ok(Erased::Unit)).err(),
        Some(DomainError::Infrastructure("Downcast failed".to_string()))
    );
    assert_eq!(
        recover::<()>(Err(DomainError::ConcurrentModification)),
        Err(DomainError::ConcurrentModification)
    );
    assert_eq!(
        recover::<TicketId>(Err(DomainError::RepositoryError("boom".to_string()))),
        Err(DomainError::RepositoryError("boom".to_string()))
    );
}

#[test]
fn create_reports_the_description_error() {
    let mut fac = MemoryUowFactory::new();
    let r = create_ticket(&mut fac, "t".to_string(), "d".repeat(201));
    assert_eq!(r, Err(DomainError::Ticket(TicketError::TooLongDescription)));
}

#[test]
fn close_of_an_unknown_ticket_is_not_found() {
    let mut fac = MemoryUowFactory::new();
    assert_eq!(close_ticket(&mut fac, 5), Err(DomainError::Ticket(TicketError::NotFound)));
}

#[test]
fn close_twice_raises_the_version_twice() {
    let mut fac = MemoryUowFactory::new();
    let id = create_ticket(&mut fac, "t".to_string(), "d".to_string()).unwrap();
    assert_eq!(close_ticket(&mut fac, id), Ok(()));
    assert_eq!(close_ticket(&mut fac, id), Ok(()));
    assert_eq!(read(&mut fac, TicketId::from(id)).unwrap().version(), 2);
}

#[test]
fn closed_copy_of_a_lookup() {
    assert_eq!(closed_copy(None).err(), Some(DomainError::Ticket(TicketError::NotFound)));
    let mut ticket = Ticket::new("t".to_string(), "d".to_string(), None).unwrap();
    ticket.assign(3);
    let closed = closed_copy(Some(ticket.clone())).unwrap();
    assert_eq!(closed.status(), TicketStatus::Closed);
    assert_eq!(closed.assignee(), Some(3));
    assert_eq!(closed.id(), ticket.id());
    assert_eq!(closed.version(), 0);
}

pub mod memory_table;
pub mod memory_ticket_repository;
pub mod statement;
pub mod transaction;

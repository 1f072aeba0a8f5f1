pub mod error;
pub mod tickets;

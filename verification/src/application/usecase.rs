pub mod tickets;

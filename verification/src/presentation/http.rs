pub mod ticket_handler;

pub mod repository;
pub mod text;
pub mod ticket;
pub mod ticket_description;
pub mod ticket_error;
pub mod ticket_id;
pub mod ticket_row;
pub mod ticket_status;
pub mod ticket_title;

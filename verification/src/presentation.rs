pub mod app_error;
pub mod http;

pub mod auth_errors;
pub mod http_error;

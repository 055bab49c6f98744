pub mod config;
pub mod email_handler;
pub mod generate_random_string;
pub mod pagination;
pub mod image_handler;
pub mod replies;
pub mod auth_handler;
pub mod users_handler;

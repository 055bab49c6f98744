pub mod db;
pub mod errors;
pub mod extractors;
pub mod handlers;
pub mod models;
pub mod schema;
pub mod text;

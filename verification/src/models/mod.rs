pub mod tag_model;
pub mod user_marked_deals;
pub mod user_model;

pub mod decimal;
pub mod search;
pub mod split;
pub mod words;

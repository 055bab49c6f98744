pub mod category_shema;
pub mod deal_schema;
pub mod provider_schema;
pub mod response_schema;

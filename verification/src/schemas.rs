pub mod auth_schemas;
pub mod user_schemas;

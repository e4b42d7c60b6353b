pub mod auth_extractor;
pub mod auth_service;
pub mod password_service;
pub mod payload;
pub mod token_codec;
pub mod token_service;

pub mod user_model;

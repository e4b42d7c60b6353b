pub mod enums;
pub mod exceptions;
pub mod text;

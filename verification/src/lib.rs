//! Authentication and authorization core of a school-records service:
//! password policy, signed session tokens, the login decision and the
//! request-time identity check.

pub mod configs;
pub mod helper;
pub mod models;
pub mod repositories;
pub mod schemas;
pub mod services;

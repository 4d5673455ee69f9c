pub mod admin;
pub mod crypto;
pub mod delegation;
pub mod schema;

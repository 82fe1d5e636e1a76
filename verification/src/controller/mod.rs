pub mod auth;
pub mod error_body;
pub mod users;

pub mod jwt;
pub mod users;

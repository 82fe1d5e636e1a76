pub mod principal;
pub mod user;

pub mod base;
pub mod request;

pub mod app_error;
pub mod field_error;

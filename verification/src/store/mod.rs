pub mod helper;
pub mod users;

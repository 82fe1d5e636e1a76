pub mod login_command;
pub mod register_command;
pub mod user_request;

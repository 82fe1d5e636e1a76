//! The model behind the web front end: sign-in providers, request shapes,
//! the signed-in state and the entry of the email confirmation code.
pub mod auth;
pub mod auth_state;
pub mod code_entry;
pub mod provider;
pub mod register_flow;
pub mod user;

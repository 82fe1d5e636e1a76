//! Keyset pagination, request validation, token issuing and client address
//! resolution for the oauth.uz identity service.
pub mod domain;
pub mod store;
pub mod text;
pub mod middleware;
pub mod usecase;
pub mod controller;
pub mod config;
pub mod frontend;

pub mod dtos;
pub mod enums;
pub mod error;
pub mod model;
pub mod port;

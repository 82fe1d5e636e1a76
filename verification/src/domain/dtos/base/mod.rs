pub mod claims;
pub mod page;
pub mod pagination;
pub mod token_pair;

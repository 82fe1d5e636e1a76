pub mod direction;
pub mod sort_direction;

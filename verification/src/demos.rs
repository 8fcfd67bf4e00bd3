pub mod d03_zero_cost;
pub mod d07_type_system;
pub mod d10_unsafe;

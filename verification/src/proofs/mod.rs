pub mod bases;
pub mod operations;
pub mod pool;
pub mod round_trip;
pub mod stages;

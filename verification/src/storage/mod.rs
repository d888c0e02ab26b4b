//! Where the records are kept: what a store must do, and a store in memory.

pub mod memory;
pub mod psql;
pub mod traits;

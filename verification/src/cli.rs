//! The two ways the program runs: creating a chain, and unlocking with one.

pub mod create;
pub mod keyscript;

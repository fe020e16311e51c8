//! Derivation of one disk-encryption key from an ordered chain of
//! authentication factors (passwords and FIDO2 authenticators).

pub mod block;
pub mod cli;
pub mod config;
pub mod errors;
pub mod factor;
pub mod fido;
pub mod graph;
pub mod kdf;
pub mod laws;
pub mod model;
pub mod modules;
pub mod run;
pub mod tasks;
pub mod utils;
pub mod wizard;

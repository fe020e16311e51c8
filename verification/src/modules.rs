//! Talking about authenticators.

pub mod fido;

//! Encodings and digests used around the derivation.

pub mod b64;
pub mod base_x;
pub mod hash;
pub mod keyscript;

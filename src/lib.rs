//! Schnorr signature verification over secp256k1 (no public-key check,
//! even-y nonce convention), with the 256-bit integer arithmetic, curve
//! adapter and test-vector generation it needs.

pub mod circuit;
pub mod curve;
pub mod field;
pub mod util;

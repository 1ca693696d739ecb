//! A BLS public key that is generic over the library that holds the curve point.
//!
//! A backend supplies a point type with two operations: compress to 48 bytes and
//! decode from bytes with full validation. Everything else that a key offers
//! (equality, hashing, the fixed-length binary codec, the Merkle commitment and the
//! `0x` hex text) is derived here from the compressed bytes alone.

pub mod blst_point;
pub mod error;
pub mod hex_text;
pub mod merkle;
pub mod public_key;

pub use crate::blst_point::BlstPoint;
pub use crate::error::Error;
pub use crate::public_key::{GenericPublicKey, TPublicKey, PUBLIC_KEY_BYTES_LEN};

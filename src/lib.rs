//! Derives a 32-byte seed from RGBA pixel data and runs seeded operations on it:
//! reproducible random draws, message hashing, and RSA encryption / decryption
//! with a key regenerated from the seed.

pub mod error;
pub mod pixels;
pub mod hex;
pub mod rng;
pub mod crypto;
pub mod ops;
pub mod codec;
pub mod laws;

//! Hierarchical-deterministic wallet core: generates a 24-word mnemonic,
//! stretches a mnemonic plus passphrase into a 64-byte seed, and walks a
//! fixed 5-level hardened derivation path to a 32-byte ed25519 private key.

mod bytes;
pub mod crypto;
pub mod error;
pub mod mnemonic;
pub mod model;
pub mod params;
pub mod private_key;
pub mod wallet;

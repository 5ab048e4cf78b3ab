//! The fixed parameters of the derivation scheme, kept in one place so the
//! standard's constants stay auditable.

use vstd::prelude::*;

verus! {

/// Registration number of the target chain, embedded as the coin-type level
/// of every derivation path.
pub const EGLD_COIN_TYPE: u32 = 508;

/// Hardened-derivation flag: the top bit of a child index.
pub const HARDENED: u32 = 0x8000_0000;

/// Purpose level of the derivation path.
pub const PURPOSE: u32 = 44;

/// Iteration count of the seed-stretching function, fixed by the mnemonic
/// standard.
pub const PBKDF2_ROUNDS: u32 = 2048;

/// Length in bytes of a stretched seed.
pub const SEED_LEN: usize = 64;

/// Length in bytes of a private key and of a chain code.
pub const KEY_LEN: usize = 32;

/// Number of levels in the derivation path.
pub const PATH_LEN: usize = 5;

/// Number of words in a generated mnemonic.
pub const MNEMONIC_WORDS: usize = 24;

} // verus!

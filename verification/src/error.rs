//! The error values the library surfaces to its callers.

use vstd::prelude::*;

verus! {

/// Why a wallet operation was refused. Failures are surfaced to the
/// immediate caller; nothing is retried and no partial result is returned.
#[derive(Clone, Copy, Debug, PartialEq, Eq)]
pub enum WalletError {
    /// The private-key constructor was handed a buffer whose length is not
    /// exactly 32 bytes.
    InvalidKeyLength,
    /// A supplied phrase is not a well-formed mnemonic: wrong word count, a
    /// word outside the canonical list, a checksum that does not validate,
    /// or spacing that differs from the canonical single-space join. Such a
    /// phrase is rejected before any derivation.
    MalformedMnemonic,
}

} // verus!

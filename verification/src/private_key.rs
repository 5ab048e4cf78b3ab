//! The private-key handle: the 32-byte terminal output of the derivation,
//! carried as opaque bytes. The library never interprets the bytes beyond
//! their length.

use vstd::prelude::*;

use crate::bytes::append_bytes;
use crate::error::WalletError;
use crate::params::KEY_LEN;

verus! {

/// A 32-byte ed25519 private-key seed.
pub struct PrivateKey {
    bytes: Vec<u8>,
}

impl View for PrivateKey {
    type V = Seq<u8>;

    closed spec fn view(&self) -> Seq<u8> {
        self.bytes@
    }
}

impl PrivateKey {
    /// A well-formed handle holds exactly 32 bytes.
    pub open spec fn wf(&self) -> bool {
        self@.len() == KEY_LEN
    }

    /// Accepts exactly 32 raw bytes; any other length is a construction
    /// error, surfaced immediately and never retried.
    pub fn from_bytes(bytes: &[u8]) -> (r: Result<PrivateKey, WalletError>)
        ensures
            bytes@.len() == KEY_LEN ==> (r matches Ok(k) && k@ == bytes@ && k.wf()),
            bytes@.len() != KEY_LEN ==> r == Err::<PrivateKey, WalletError>(
                WalletError::InvalidKeyLength,
            ),
    {
        if bytes.len() == KEY_LEN {
            let mut held: Vec<u8> = Vec::new();
            append_bytes(&mut held, bytes);
            proof {
                assert(held@ =~= bytes@);
            }
            Ok(PrivateKey { bytes: held })
        } else {
            Err(WalletError::InvalidKeyLength)
        }
    }

    /// The raw key bytes, for the external signing collaborator.
    pub fn as_bytes(&self) -> (r: &Vec<u8>)
        ensures
            r@ == self@,
    {
        &self.bytes
    }
}

} // verus!

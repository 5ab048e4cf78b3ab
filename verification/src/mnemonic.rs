//! The mnemonic phrase: an ordered sequence of checksummed words, held as
//! its UTF-8 byte form. A value is obtained either freshly generated from
//! the system's secure randomness or by validating a caller-supplied phrase;
//! a phrase that fails validation is rejected before any derivation.

use vstd::prelude::*;

use crate::bytes::append_bytes;
use crate::crypto::{generate_phrase, mnemonic_valid, phrase_is_valid, wipe_bytes};
use crate::error::WalletError;
use crate::model::{canonical_byte, canonical_spacing, count_words};
use crate::params::MNEMONIC_WORDS;

verus! {

/// A mnemonic phrase, held as its UTF-8 bytes with words separated by
/// single spaces.
pub struct Mnemonic {
    phrase: Vec<u8>,
}

impl View for Mnemonic {
    type V = Seq<u8>;

    closed spec fn view(&self) -> Seq<u8> {
        self.phrase@
    }
}

impl Mnemonic {
    /// A well-formed mnemonic: an accepted word count, every word in the
    /// canonical English list, a checksum that validates against the encoded
    /// entropy, and the canonical single-space byte form — so the held bytes
    /// are exactly the canonical string form that seed stretching is keyed
    /// by.
    pub open spec fn wf(&self) -> bool {
        mnemonic_valid(self@) && canonical_spacing(self@)
    }

    /// Generates a fresh mnemonic of 24 words from 256 bits of entropy drawn
    /// from the system's cryptographically secure randomness; an entropy
    /// failure aborts rather than falling back to a weaker source.
    pub fn generate() -> (r: Mnemonic)
        ensures
            r.wf(),
            count_words(r@) == MNEMONIC_WORDS,
    {
        Mnemonic { phrase: generate_phrase() }
    }

    /// Accepts a caller-supplied phrase, returning a mnemonic exactly when
    /// the phrase validates and is already in canonical single-space byte
    /// form; any other phrase — including one that spells valid words with
    /// doubled spaces, tabs, or surrounding whitespace, which would stretch
    /// into a non-standard seed — is rejected before any derivation could
    /// consume it.
    pub fn from_phrase(phrase: &[u8]) -> (r: Result<Mnemonic, WalletError>)
        ensures
            mnemonic_valid(phrase@) && canonical_spacing(phrase@) ==> (r matches Ok(m) && m@
                == phrase@ && m.wf()),
            !(mnemonic_valid(phrase@) && canonical_spacing(phrase@)) ==> r == Err::<
                Mnemonic,
                WalletError,
            >(WalletError::MalformedMnemonic),
    {
        if is_canonical_spacing(phrase) && phrase_is_valid(phrase) {
            let mut bytes: Vec<u8> = Vec::new();
            append_bytes(&mut bytes, phrase);
            proof {
                assert(bytes@ =~= phrase@);
            }
            Ok(Mnemonic { phrase: bytes })
        } else {
            Err(WalletError::MalformedMnemonic)
        }
    }

    /// The phrase bytes, for display or transport by the caller.
    pub fn phrase(&self) -> (r: &Vec<u8>)
        ensures
            r@ == self@,
    {
        &self.phrase
    }

    /// Overwrites the phrase with zeros and empties it: the backup words are
    /// secret material and are to be erased once the caller is done. The
    /// emptied value is no longer well formed and cannot re-enter
    /// derivation.
    pub fn wipe(&mut self)
        ensures
            final(self)@.len() == 0,
            !final(self).wf(),
    {
        wipe_bytes(&mut self.phrase);
    }
}

/// Decides whether a phrase is in canonical byte form: only lowercase ASCII
/// letters and single separating spaces, none at either end.
fn is_canonical_spacing(phrase: &[u8]) -> (r: bool)
    ensures
        r == canonical_spacing(phrase@),
{
    let n = phrase.len();
    if n == 0 {
        return false;
    }
    if *vstd::slice::slice_index_get(phrase, 0) == 32u8 {
        return false;
    }
    if *vstd::slice::slice_index_get(phrase, n - 1) == 32u8 {
        return false;
    }
    let mut i: usize = 0;
    while i < n
        invariant
            i <= n,
            n == phrase@.len(),
            forall|j: int| 0 <= j < i ==> canonical_byte(#[trigger] phrase@[j]),
            forall|j: int| 0 < j < i ==> !((#[trigger] phrase@[j]) == 32 && phrase@[j - 1] == 32),
        decreases n - i,
    {
        let b: u8 = *vstd::slice::slice_index_get(phrase, i);
        if !(b == 32 || (97 <= b && b <= 122)) {
            proof {
                assert(!canonical_byte(phrase@[i as int]));
            }
            return false;
        }
        if i > 0 && b == 32 && *vstd::slice::slice_index_get(phrase, i - 1) == 32 {
            return false;
        }
        i = i + 1;
    }
    true
}

} // verus!

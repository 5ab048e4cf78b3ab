//! The trusted boundary to the cryptographic primitives: HMAC-SHA512,
//! PBKDF2-HMAC-SHA512, the mnemonic codec, and buffer wiping. Each outside
//! call sits in one wrapper whose contract names or states its result; all
//! derivation logic above this module is verified against these contracts.

use vstd::prelude::*;

use hmac::{Hmac, Mac};
use sha2::Sha512;
use zeroize::Zeroize;

use crate::model::{canonical_spacing, count_words};
use crate::params::MNEMONIC_WORDS;

verus! {

/// The 64-byte HMAC-SHA512 digest of `data` under `key`: a function of its
/// arguments alone, left uninterpreted because its value has no short
/// statement.
pub uninterp spec fn hmac_sha512(key: Seq<u8>, data: Seq<u8>) -> Seq<u8>;

/// The 64-byte PBKDF2 output for the given password and salt after `rounds`
/// iterations of HMAC-SHA512: a function of its arguments alone, left
/// uninterpreted because its value has no short statement.
pub uninterp spec fn pbkdf2_sha512(password: Seq<u8>, salt: Seq<u8>, rounds: u32) -> Seq<u8>;

/// Whether `phrase` is a well-formed English mnemonic: UTF-8, an accepted
/// word count, every word drawn from the canonical 2048-word English list,
/// and a checksum that validates against the encoded entropy. This is
/// exactly the set of phrases that `bip39::Mnemonic::parse_in_normalized`
/// accepts for English.
pub uninterp spec fn mnemonic_valid(phrase: Seq<u8>) -> bool;

/// Relies on `hmac::Hmac<sha2::Sha512>`: the digest depends on the key and
/// message bytes alone, and is 64 bytes long (the SHA-512 output size).
/// HMAC accepts keys of any length, so initialization cannot fail.
#[verifier::external_body]
pub(crate) fn hmac_sha512_bytes(key: &[u8], data: &[u8]) -> (r: Vec<u8>)
    ensures
        r@ == hmac_sha512(key@, data@),
        r@.len() == 64,
{
    let mut mac =
        Hmac::<Sha512>::new_from_slice(key).expect("HMAC accepts keys of any length");
    mac.update(data);
    mac.finalize().into_bytes().to_vec()
}

/// Relies on `pbkdf2::pbkdf2_hmac::<sha2::Sha512>`: the output depends on the
/// password, salt, and round count alone, and fills the requested 64 bytes.
#[verifier::external_body]
pub(crate) fn pbkdf2_sha512_bytes(password: &[u8], salt: &[u8], rounds: u32) -> (r: Vec<u8>)
    ensures
        r@ == pbkdf2_sha512(password@, salt@, rounds),
        r@.len() == 64,
{
    let mut out = vec![0u8; 64];
    pbkdf2::pbkdf2_hmac::<Sha512>(password, salt, rounds, &mut out);
    out
}

/// Relies on `bip39::Mnemonic::generate_in_with` with the `rand` thread RNG:
/// a 24-word count is always accepted, the words are drawn from 256 bits of
/// fresh entropy plus their checksum, and the display form joins exactly the
/// 24 chosen list words — each a run of lowercase ASCII letters — with
/// single spaces, so the phrase is in canonical byte form and parsing it
/// back succeeds. The result depends on the entropy drawn, so nothing more
/// is promised of its value.
#[verifier::external_body]
pub(crate) fn generate_phrase() -> (r: Vec<u8>)
    ensures
        mnemonic_valid(r@),
        canonical_spacing(r@),
        count_words(r@) == MNEMONIC_WORDS,
{
    let mut rng = rand::thread_rng();
    let mnemonic =
        bip39::Mnemonic::generate_in_with(&mut rng, bip39::Language::English, 24)
            .expect("a 24-word count is always accepted");
    mnemonic.to_string().into_bytes()
}

/// Relies on `bip39::Mnemonic::parse_in_normalized` for English: it accepts a
/// phrase exactly when the word count is allowed, every word is in the
/// English list, and the checksum validates; its verdict depends on the
/// phrase bytes alone.
#[verifier::external_body]
pub(crate) fn phrase_is_valid(phrase: &[u8]) -> (r: bool)
    ensures
        r == mnemonic_valid(phrase@),
{
    match core::str::from_utf8(phrase) {
        Ok(s) => bip39::Mnemonic::parse_in_normalized(bip39::Language::English, s).is_ok(),
        Err(_) => false,
    }
}

/// Relies on `zeroize::Zeroize` for `Vec<u8>`: every byte of the buffer,
/// spare capacity included, is overwritten with zeros before the length is
/// reset, and the writes are not elided by the compiler.
#[verifier::external_body]
pub(crate) fn wipe_bytes(buf: &mut Vec<u8>)
    ensures
        final(buf)@.len() == 0,
{
    buf.zeroize();
}

} // verus!

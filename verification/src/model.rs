//! The mathematical model of the derivation scheme: the salt layout, the
//! master-key expansion, the per-level child-key step, and the fixed
//! five-level hardened path, all stated over byte sequences.

use vstd::prelude::*;

use crate::crypto::{hmac_sha512, pbkdf2_sha512};
use crate::params::{EGLD_COIN_TYPE, HARDENED, PBKDF2_ROUNDS, PURPOSE};

verus! {

/// The ASCII bytes of the fixed salt prefix `mnemonic`.
pub open spec fn salt_prefix() -> Seq<u8> {
    seq![109u8, 110u8, 101u8, 109u8, 111u8, 110u8, 105u8, 99u8]
}

/// The salt of the seed-stretching function: the fixed prefix followed by
/// the passphrase bytes.
pub open spec fn salt_for(passphrase: Seq<u8>) -> Seq<u8> {
    salt_prefix() + passphrase
}

/// The ASCII bytes of the fixed master HMAC key `ed25519 seed`.
pub open spec fn master_hmac_key() -> Seq<u8> {
    seq![101u8, 100u8, 50u8, 53u8, 53u8, 49u8, 57u8, 32u8, 115u8, 101u8, 101u8, 100u8]
}

/// The 64-byte seed stretched from a mnemonic phrase and a passphrase.
pub open spec fn spec_derive_seed(phrase: Seq<u8>, passphrase: Seq<u8>) -> Seq<u8> {
    pbkdf2_sha512(phrase, salt_for(passphrase), PBKDF2_ROUNDS)
}

/// The big-endian four-byte encoding of a 32-bit index, high byte first.
pub open spec fn be32(x: u32) -> Seq<u8> {
    seq![
        (x / 0x100_0000) as u8,
        ((x / 0x1_0000) % 0x100) as u8,
        ((x / 0x100) % 0x100) as u8,
        (x % 0x100) as u8,
    ]
}

/// The 37-byte message of one hardened child-key step: one zero padding
/// byte, the current 32-byte key, and the big-endian child index.
pub open spec fn ckd_data(key: Seq<u8>, index: u32) -> Seq<u8> {
    seq![0u8] + key + be32(index)
}

/// One hardened derivation step: HMAC-SHA512 keyed by the chain code over
/// the step message, split into the child key (first 32 bytes) and the
/// child chain code (last 32 bytes).
pub open spec fn ckd_step(key: Seq<u8>, chain_code: Seq<u8>, index: u32) -> (Seq<u8>, Seq<u8>) {
    let digest = hmac_sha512(chain_code, ckd_data(key, index));
    (digest.subrange(0, 32), digest.subrange(32, 64))
}

/// The (key, chain code) pair after walking every index of `path` in order
/// from the given starting pair.
pub open spec fn ckd_chain(key: Seq<u8>, chain_code: Seq<u8>, path: Seq<u32>) -> (Seq<u8>, Seq<u8>)
    decreases path.len(),
{
    if path.len() == 0 {
        (key, chain_code)
    } else {
        let next = ckd_step(key, chain_code, path[0]);
        ckd_chain(next.0, next.1, path.skip(1))
    }
}

/// The master (key, chain code) pair: HMAC-SHA512 with the fixed master key
/// over the seed, split in the middle.
pub open spec fn master_pair(seed: Seq<u8>) -> (Seq<u8>, Seq<u8>) {
    let digest = hmac_sha512(master_hmac_key(), seed);
    (digest.subrange(0, 32), digest.subrange(32, 64))
}

/// The fixed five-level hardened path: purpose, coin type, account, a
/// constant zero level, and address index, each with the hardened bit set.
pub open spec fn path_of(account: u32, address_index: u32) -> Seq<u32> {
    seq![
        PURPOSE | HARDENED,
        EGLD_COIN_TYPE | HARDENED,
        account | HARDENED,
        HARDENED,
        address_index | HARDENED,
    ]
}

/// The 32-byte private key derived from a 64-byte seed for the given account
/// and address index: the key half of the chain walked over the fixed path
/// from the master pair.
pub open spec fn spec_derive_private_key(seed: Seq<u8>, account: u32, address_index: u32) -> Seq<u8> {
    let master = master_pair(seed);
    ckd_chain(master.0, master.1, path_of(account, address_index)).0
}

/// Law: every level of the derivation path is hardened. Each of the five
/// child indices has its top bit set, whatever account and address index the
/// caller picked, so a non-hardened derivation is never performed.
pub proof fn lemma_path_fully_hardened(account: u32, address_index: u32)
    ensures
        forall|i: int|
            0 <= i < path_of(account, address_index).len() ==> #[trigger] (path_of(
                account,
                address_index,
            )[i] & HARDENED) == HARDENED,
{
    assert forall|i: int| 0 <= i < path_of(account, address_index).len() implies #[trigger] (
    path_of(account, address_index)[i] & HARDENED) == HARDENED by {
        lemma_or_sets_top_bit(PURPOSE);
        lemma_or_sets_top_bit(EGLD_COIN_TYPE);
        lemma_or_sets_top_bit(account);
        lemma_or_sets_top_bit(0u32);
        lemma_or_sets_top_bit(address_index);
        assert(HARDENED == 0u32 | HARDENED) by (bit_vector);
    }
}

/// Setting the top bit leaves it set.
proof fn lemma_or_sets_top_bit(x: u32)
    ensures
        (x | HARDENED) & HARDENED == HARDENED,
{
    assert((x | 0x8000_0000u32) & 0x8000_0000u32 == 0x8000_0000u32) by (bit_vector);
}

/// A byte the canonical form of an English phrase may hold: a lowercase
/// ASCII letter or the single separating space.
pub open spec fn canonical_byte(b: u8) -> bool {
    b == 32 || (97 <= b && b <= 122)
}

/// Whether a phrase is in canonical byte form: non-empty, only lowercase
/// ASCII letters and spaces, no leading or trailing space, and no two
/// adjacent spaces. Joining words of the canonical English list with single
/// spaces yields exactly this shape, so a phrase in this form is
/// byte-identical to the canonical string form of the mnemonic it spells;
/// any other spacing would stretch into a seed incompatible with other
/// implementations of the standard.
pub open spec fn canonical_spacing(s: Seq<u8>) -> bool {
    &&& s.len() > 0
    &&& forall|i: int| 0 <= i < s.len() ==> canonical_byte(#[trigger] s[i])
    &&& s[0] != 32
    &&& s[s.len() - 1] != 32
    &&& forall|i: int| 0 < i < s.len() ==> !((#[trigger] s[i]) == 32 && s[i - 1] == 32)
}

/// The number of words counted from position `i` on: a word starts at a
/// non-space byte that begins the text or follows a space.
pub open spec fn count_words_from(s: Seq<u8>, i: int) -> nat
    decreases s.len() - i,
{
    if i < 0 || i >= s.len() {
        0
    } else {
        (if s[i] != 32 && (i == 0 || s[i - 1] == 32) {
            1nat
        } else {
            0nat
        }) + count_words_from(s, i + 1)
    }
}

/// The number of space-separated words in a phrase.
pub open spec fn count_words(s: Seq<u8>) -> nat {
    count_words_from(s, 0)
}

} // verus!

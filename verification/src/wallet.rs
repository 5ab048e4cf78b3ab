//! The wallet facade: mnemonic generation, seed stretching, and the
//! five-level hardened child-key derivation that yields one 32-byte ed25519
//! private key. Every buffer of key, chain-code, seed, or salt material is
//! wiped once it has been consumed.

use vstd::prelude::*;

use vstd::slice::{slice_subrange, slice_to_vec};

use crate::bytes::append_bytes;
use crate::crypto::{hmac_sha512_bytes, mnemonic_valid, pbkdf2_sha512_bytes, wipe_bytes};
use crate::error::WalletError;
use crate::mnemonic::Mnemonic;
use crate::model::{
    be32, canonical_spacing, ckd_chain, ckd_data, ckd_step, count_words, master_hmac_key,
    master_pair, path_of, salt_for, salt_prefix, spec_derive_private_key, spec_derive_seed,
};
use crate::params::{
    EGLD_COIN_TYPE, HARDENED, KEY_LEN, MNEMONIC_WORDS, PATH_LEN, PBKDF2_ROUNDS, PURPOSE, SEED_LEN,
};
use crate::private_key::PrivateKey;

verus! {

/// The two-stage pipeline: generate (or accept) a mnemonic, then derive a
/// seed and walk the fixed hardened path to a private key. It holds no
/// state; every operation is a function of its explicit inputs and, for
/// generation only, of fresh entropy.
pub struct Wallet {}

impl Wallet {
    pub fn new() -> (r: Self)
        ensures
            r == (Wallet {}),
    {
        Self {}
    }

    /// Generates a fresh 24-word mnemonic from the system's secure
    /// randomness. Every call draws independent entropy; an entropy failure
    /// aborts rather than substituting a weaker source.
    pub fn generate_mnemonic() -> (r: Mnemonic)
        ensures
            r.wf(),
            count_words(r@) == MNEMONIC_WORDS,
    {
        Mnemonic::generate()
    }

    /// Stretches a mnemonic and passphrase into a 64-byte seed: PBKDF2 with
    /// an HMAC-SHA512 pseudorandom function, 2048 iterations, keyed by the
    /// mnemonic's canonical byte form and salted by the fixed prefix
    /// followed by the passphrase. Only a well-formed mnemonic may enter —
    /// in particular not one that has been wiped. The salt buffer is wiped
    /// before returning.
    pub fn derive_seed(mnemonic: &Mnemonic, passphrase: &[u8]) -> (seed: Vec<u8>)
        requires
            mnemonic.wf(),
        ensures
            seed@ == spec_derive_seed(mnemonic@, passphrase@),
            seed@.len() == SEED_LEN,
    {
        let mut salt = salt_prefix_bytes();
        append_bytes(&mut salt, passphrase);
        proof {
            assert(salt@ =~= salt_for(passphrase@));
        }
        let seed = pbkdf2_sha512_bytes(mnemonic.phrase().as_slice(), salt.as_slice(), PBKDF2_ROUNDS);
        wipe_bytes(&mut salt);
        seed
    }

    /// Walks the fixed hardened path `[44', 508', account', 0',
    /// address_index']` from the master pair expanded out of the seed, and
    /// returns the terminal 32-byte key. Each level keys HMAC-SHA512 by the
    /// current chain code over one zero byte, the current key, and the
    /// big-endian child index; every superseded buffer is wiped.
    pub fn derive_private_key(seed: &[u8], account: u32, address_index: u32) -> (key: Vec<u8>)
        requires
            seed@.len() == SEED_LEN,
        ensures
            key@ == spec_derive_private_key(seed@, account, address_index),
            key@.len() == KEY_LEN,
    {
        let master_key = master_hmac_key_bytes();
        let mut digest = hmac_sha512_bytes(master_key.as_slice(), seed);
        let mut key = slice_to_vec(slice_subrange(digest.as_slice(), 0, KEY_LEN));
        let mut chain_code = slice_to_vec(slice_subrange(digest.as_slice(), KEY_LEN, SEED_LEN));
        wipe_bytes(&mut digest);
        proof {
            assert(key@ == master_pair(seed@).0);
            assert(chain_code@ == master_pair(seed@).1);
        }

        let mut path: Vec<u32> = Vec::new();
        path.push(PURPOSE | HARDENED);
        path.push(EGLD_COIN_TYPE | HARDENED);
        path.push(account | HARDENED);
        path.push(HARDENED);
        path.push(address_index | HARDENED);
        proof {
            assert(path@ =~= path_of(account, address_index));
        }

        let ghost target = ckd_chain(key@, chain_code@, path_of(account, address_index));
        proof {
            assert(path@.skip(0) =~= path@);
        }

        let mut level: usize = 0;
        while level < PATH_LEN
            invariant
                level <= PATH_LEN,
                path@ == path_of(account, address_index),
                path@.len() == PATH_LEN,
                key@.len() == KEY_LEN,
                chain_code@.len() == KEY_LEN,
                ckd_chain(key@, chain_code@, path@.skip(level as int)) == target,
            decreases PATH_LEN - level,
        {
            let child_index: u32 = path[level];
            let ghost prev_key = key@;
            let ghost prev_chain_code = chain_code@;

            let mut data: Vec<u8> = Vec::new();
            data.push(0u8);
            append_bytes(&mut data, key.as_slice());
            push_be32(&mut data, child_index);
            proof {
                assert(data@ =~= ckd_data(prev_key, child_index));
            }

            let mut digest = hmac_sha512_bytes(chain_code.as_slice(), data.as_slice());
            wipe_bytes(&mut data);
            wipe_bytes(&mut key);
            wipe_bytes(&mut chain_code);
            key = slice_to_vec(slice_subrange(digest.as_slice(), 0, KEY_LEN));
            chain_code = slice_to_vec(slice_subrange(digest.as_slice(), KEY_LEN, SEED_LEN));
            wipe_bytes(&mut digest);

            proof {
                let remaining = path@.skip(level as int);
                assert(remaining[0] == path@[level as int]);
                assert((key@, chain_code@) == ckd_step(prev_key, prev_chain_code, child_index));
                assert(remaining.skip(1) =~= path@.skip(level as int + 1));
                assert(ckd_chain(prev_key, prev_chain_code, remaining) == ckd_chain(
                    key@,
                    chain_code@,
                    path@.skip(level as int + 1),
                ));
            }
            level = level + 1;
        }
        proof {
            assert(path@.skip(PATH_LEN as int) =~= Seq::<u32>::empty());
            assert(ckd_chain(key@, chain_code@, Seq::<u32>::empty()) == (key@, chain_code@));
        }
        key
    }

    /// The straight two-call pipeline of the original scheme: stretch the
    /// mnemonic with an empty passphrase, derive along the fixed path for
    /// the given account and address index, and hand the terminal 32 bytes
    /// to the private-key constructor. The seed and the key buffer are
    /// wiped once consumed.
    pub fn get_private_key_from_mnemonic(
        mnemonic: &Mnemonic,
        account: u32,
        address_index: u32,
    ) -> (r: PrivateKey)
        requires
            mnemonic.wf(),
        ensures
            r@ == spec_derive_private_key(
                spec_derive_seed(mnemonic@, Seq::<u8>::empty()),
                account,
                address_index,
            ),
            r.wf(),
    {
        let empty_passphrase: Vec<u8> = Vec::new();
        let mut seed = Self::derive_seed(mnemonic, empty_passphrase.as_slice());
        let mut key = Self::derive_private_key(seed.as_slice(), account, address_index);
        wipe_bytes(&mut seed);
        let handle = match PrivateKey::from_bytes(key.as_slice()) {
            Ok(k) => k,
            Err(_) => vstd::pervasive::unreached(),
        };
        wipe_bytes(&mut key);
        handle
    }

    /// Validates a caller-supplied phrase and, when it is a well-formed
    /// canonical mnemonic, stretches it with the given passphrase; any other
    /// phrase is rejected before derivation. This is the entry point for a
    /// caller holding a raw phrase, who cannot know its validity without
    /// asking.
    pub fn derive_seed_from_phrase(phrase: &[u8], passphrase: &[u8]) -> (r: Result<
        Vec<u8>,
        WalletError,
    >)
        ensures
            mnemonic_valid(phrase@) && canonical_spacing(phrase@) ==> (r matches Ok(seed)
                && seed@ == spec_derive_seed(phrase@, passphrase@) && seed@.len() == SEED_LEN),
            !(mnemonic_valid(phrase@) && canonical_spacing(phrase@)) ==> r == Err::<
                Vec<u8>,
                WalletError,
            >(WalletError::MalformedMnemonic),
    {
        match Mnemonic::from_phrase(phrase) {
            Ok(mnemonic) => Ok(Self::derive_seed(&mnemonic, passphrase)),
            Err(e) => Err(e),
        }
    }

    /// Validates a caller-supplied phrase and, when it is a well-formed
    /// canonical mnemonic, runs the full pipeline to the private key for the
    /// given account and address index; any other phrase is rejected before
    /// derivation.
    pub fn get_private_key_from_phrase(
        phrase: &[u8],
        account: u32,
        address_index: u32,
    ) -> (r: Result<PrivateKey, WalletError>)
        ensures
            mnemonic_valid(phrase@) && canonical_spacing(phrase@) ==> (r matches Ok(key)
                && key@ == spec_derive_private_key(
                spec_derive_seed(phrase@, Seq::<u8>::empty()),
                account,
                address_index,
            ) && key.wf()),
            !(mnemonic_valid(phrase@) && canonical_spacing(phrase@)) ==> r == Err::<
                PrivateKey,
                WalletError,
            >(WalletError::MalformedMnemonic),
    {
        match Mnemonic::from_phrase(phrase) {
            Ok(mnemonic) => Ok(
                Self::get_private_key_from_mnemonic(&mnemonic, account, address_index),
            ),
            Err(e) => Err(e),
        }
    }

    /// Address encoding for the target chain is the concern of a separate
    /// external collaborator that consumes the private-key handle; this
    /// core deliberately performs no address derivation.
    pub fn get_address_from_private_key() {
    }
}

/// Law: seed stretching is deterministic. Any two seeds stretched from the
/// same phrase and passphrase — as `derive_seed`'s contract describes its
/// result — are byte-identical, which is what makes wallet recovery from a
/// backup possible.
pub proof fn lemma_derive_seed_deterministic(
    phrase: Seq<u8>,
    passphrase: Seq<u8>,
    seed1: Seq<u8>,
    seed2: Seq<u8>,
)
    requires
        seed1 == spec_derive_seed(phrase, passphrase),
        seed2 == spec_derive_seed(phrase, passphrase),
    ensures
        seed1 == seed2,
{
}

/// Law: key derivation is deterministic. Any two keys derived from the same
/// seed, account, and address index — as `derive_private_key`'s contract
/// describes its result — are byte-identical.
pub proof fn lemma_derive_private_key_deterministic(
    seed: Seq<u8>,
    account: u32,
    address_index: u32,
    key1: Seq<u8>,
    key2: Seq<u8>,
)
    requires
        key1 == spec_derive_private_key(seed, account, address_index),
        key2 == spec_derive_private_key(seed, account, address_index),
    ensures
        key1 == key2,
{
}

/// The ASCII bytes of the fixed salt prefix.
fn salt_prefix_bytes() -> (r: Vec<u8>)
    ensures
        r@ == salt_prefix(),
{
    let mut v: Vec<u8> = Vec::new();
    v.push(109u8);
    v.push(110u8);
    v.push(101u8);
    v.push(109u8);
    v.push(111u8);
    v.push(110u8);
    v.push(105u8);
    v.push(99u8);
    proof {
        assert(v@ =~= salt_prefix());
    }
    v
}

/// The ASCII bytes of the fixed master HMAC key.
fn master_hmac_key_bytes() -> (r: Vec<u8>)
    ensures
        r@ == master_hmac_key(),
{
    let mut v: Vec<u8> = Vec::new();
    v.push(101u8);
    v.push(100u8);
    v.push(50u8);
    v.push(53u8);
    v.push(53u8);
    v.push(49u8);
    v.push(57u8);
    v.push(32u8);
    v.push(115u8);
    v.push(101u8);
    v.push(101u8);
    v.push(100u8);
    proof {
        assert(v@ =~= master_hmac_key());
    }
    v
}

/// Appends the big-endian four-byte encoding of `x`, high byte first.
fn push_be32(dst: &mut Vec<u8>, x: u32)
    ensures
        final(dst)@ == old(dst)@ + be32(x),
{
    proof {
        assert(x / 0x100_0000 <= 0xFF);
    }
    dst.push((x / 0x100_0000) as u8);
    dst.push(((x / 0x1_0000) % 0x100) as u8);
    dst.push(((x / 0x100) % 0x100) as u8);
    dst.push((x % 0x100) as u8);
    proof {
        assert(dst@ =~= old(dst)@ + be32(x));
    }
}

} // verus!

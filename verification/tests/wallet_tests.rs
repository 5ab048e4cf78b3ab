use hd_wallet::error::WalletError;
use hd_wallet::mnemonic::Mnemonic;
use hd_wallet::private_key::PrivateKey;
use hd_wallet::wallet::Wallet;

fn hex_to_bytes(s: &str) -> Vec<u8> {
    let digits: Vec<u32> = s.chars().map(|c| c.to_digit(16).expect("hex digit")).collect();
    assert!(digits.len() % 2 == 0);
    digits.chunks(2).map(|p| (p[0] * 16 + p[1]) as u8).collect()
}

const TEST_MNEMONIC_12: &str =
    "abandon abandon abandon abandon abandon abandon abandon abandon abandon abandon abandon about";

const TEST_MNEMONIC_24: &str =
    "abandon abandon abandon abandon abandon abandon abandon abandon abandon abandon abandon \
     abandon abandon abandon abandon abandon abandon abandon abandon abandon abandon abandon \
     abandon art";

// The published reference seed of the standard's test mnemonic above, with an
// empty passphrase.
const TEST_SEED_12: &str =
    "5eb00bbddcf069084889a8ab9155568165f5c453ccb85e70811aaed6f6da5fc1\
     9a5ac40b389cd370d086206dec8aa6c43daea6690f20ad3d8d48b2d2ce9e38e4";

const TEST_SEED_24: &str =
    "408b285c123836004f4b8842c89324c1f01382450c0d439af345ba7fc49acf70\
     5489c6fc77dbd4e3dc1dd8cc6bc9f043db8ada1e243c4a0eafb290d399480840";

fn mnemonic(phrase: &str) -> Mnemonic {
    Mnemonic::from_phrase(phrase.as_bytes()).expect("valid test mnemonic")
}

#[test]
fn derive_seed_matches_published_vector_12_words() {
    let m = mnemonic(TEST_MNEMONIC_12);
    let seed = Wallet::derive_seed(&m, b"");
    assert_eq!(seed, hex_to_bytes(TEST_SEED_12));
}

#[test]
fn derive_seed_matches_published_vector_24_words() {
    let m = mnemonic(TEST_MNEMONIC_24);
    let seed = Wallet::derive_seed(&m, b"");
    assert_eq!(seed, hex_to_bytes(TEST_SEED_24));
}

#[test]
fn derive_seed_uses_passphrase() {
    let m = mnemonic(TEST_MNEMONIC_12);
    let plain = Wallet::derive_seed(&m, b"");
    let salted = Wallet::derive_seed(&m, b"TREZOR");
    assert_eq!(salted.len(), 64);
    assert_ne!(plain, salted);
}

#[test]
fn derive_seed_is_deterministic() {
    let m = mnemonic(TEST_MNEMONIC_24);
    let first = Wallet::derive_seed(&m, b"pass");
    let second = Wallet::derive_seed(&m, b"pass");
    assert_eq!(first, second);
}

// Reference key for the fixed path [44', 508', 0', 0', 0'] from the seed of
// the 12-word test mnemonic, pinned once to guard the byte layout, the
// child-index endianness, and the split offsets.
#[test]
fn derive_private_key_matches_pinned_vector() {
    let seed = hex_to_bytes(TEST_SEED_12);
    let key = Wallet::derive_private_key(&seed, 0, 0);
    assert_eq!(
        key,
        hex_to_bytes("0eb89d816d68610683f209074af218d121a7c7db45d861fbdd959ec662b6404b")
    );
}

#[test]
fn derive_private_key_is_deterministic() {
    let seed = hex_to_bytes(TEST_SEED_24);
    let first = Wallet::derive_private_key(&seed, 3, 7);
    let second = Wallet::derive_private_key(&seed, 3, 7);
    assert_eq!(first, second);
}

#[test]
fn full_pipeline_matches_pinned_vector() {
    let m = mnemonic(TEST_MNEMONIC_24);
    let key = Wallet::get_private_key_from_mnemonic(&m, 0, 0);
    assert_eq!(
        key.as_bytes(),
        &hex_to_bytes("7ebe30f8135120c9f9efc65a93139fa72c9dcffe6d992235d21fd38930cc68b5")
    );
}

#[test]
fn changing_account_changes_key() {
    let m = mnemonic(TEST_MNEMONIC_24);
    let base = Wallet::get_private_key_from_mnemonic(&m, 0, 0);
    let other = Wallet::get_private_key_from_mnemonic(&m, 1, 0);
    assert_ne!(base.as_bytes(), other.as_bytes());
    assert_eq!(
        other.as_bytes(),
        &hex_to_bytes("064d9963243f75432d52603f92df42962931f51c5b3d6aed9562ed8ff36759f5")
    );
}

#[test]
fn changing_address_index_changes_key() {
    let m = mnemonic(TEST_MNEMONIC_24);
    let base = Wallet::get_private_key_from_mnemonic(&m, 0, 0);
    let other = Wallet::get_private_key_from_mnemonic(&m, 0, 1);
    assert_ne!(base.as_bytes(), other.as_bytes());
    assert_eq!(
        other.as_bytes(),
        &hex_to_bytes("a4b192c33dc7868d96630a7d292d3b3b3847044adcbb3459d0a8662e856ebe99")
    );
}

#[test]
fn generated_mnemonic_has_24_valid_words() {
    let m = Wallet::generate_mnemonic();
    let phrase = String::from_utf8(m.phrase().clone()).expect("phrase is UTF-8");
    let words: Vec<&str> = phrase.split_whitespace().collect();
    assert_eq!(words.len(), 24);
    // Parsing validates every word against the canonical English list and
    // checks the checksum.
    let parsed = bip39::Mnemonic::parse_in_normalized(bip39::Language::English, &phrase);
    assert!(parsed.is_ok());
    assert_eq!(parsed.unwrap().word_count(), 24);
}

#[test]
fn generated_mnemonics_are_independent() {
    let first = Wallet::generate_mnemonic();
    let second = Wallet::generate_mnemonic();
    assert_ne!(first.phrase(), second.phrase());
}

#[test]
fn generated_mnemonic_round_trips_through_validation() {
    let m = Wallet::generate_mnemonic();
    let again = Mnemonic::from_phrase(m.phrase()).expect("generated phrase validates");
    assert_eq!(again.phrase(), m.phrase());
}

#[test]
fn from_phrase_rejects_bad_checksum() {
    // 24 list words whose checksum does not validate.
    let phrase = "abandon abandon abandon abandon abandon abandon abandon abandon abandon \
                  abandon abandon abandon abandon abandon abandon abandon abandon abandon \
                  abandon abandon abandon abandon abandon abandon";
    assert!(matches!(
        Mnemonic::from_phrase(phrase.as_bytes()),
        Err(WalletError::MalformedMnemonic)
    ));
}

#[test]
fn from_phrase_rejects_unknown_word() {
    let phrase = TEST_MNEMONIC_12.replace("about", "aboutx");
    assert!(matches!(
        Mnemonic::from_phrase(phrase.as_bytes()),
        Err(WalletError::MalformedMnemonic)
    ));
}

#[test]
fn from_phrase_rejects_bad_word_count() {
    assert!(matches!(
        Mnemonic::from_phrase(b"abandon abandon abandon"),
        Err(WalletError::MalformedMnemonic)
    ));
}

#[test]
fn from_phrase_rejects_doubled_space() {
    let phrase = TEST_MNEMONIC_12.replace("abandon about", "abandon  about");
    assert!(matches!(
        Mnemonic::from_phrase(phrase.as_bytes()),
        Err(WalletError::MalformedMnemonic)
    ));
}

#[test]
fn from_phrase_rejects_tab_separator() {
    let phrase = TEST_MNEMONIC_12.replace("abandon about", "abandon\tabout");
    assert!(matches!(
        Mnemonic::from_phrase(phrase.as_bytes()),
        Err(WalletError::MalformedMnemonic)
    ));
}

#[test]
fn from_phrase_rejects_surrounding_whitespace() {
    let leading = format!(" {}", TEST_MNEMONIC_12);
    let trailing = format!("{} ", TEST_MNEMONIC_12);
    assert!(matches!(
        Mnemonic::from_phrase(leading.as_bytes()),
        Err(WalletError::MalformedMnemonic)
    ));
    assert!(matches!(
        Mnemonic::from_phrase(trailing.as_bytes()),
        Err(WalletError::MalformedMnemonic)
    ));
}

#[test]
fn derive_seed_from_phrase_matches_published_vector() {
    let seed = Wallet::derive_seed_from_phrase(TEST_MNEMONIC_12.as_bytes(), b"")
        .expect("valid canonical phrase");
    assert_eq!(seed, hex_to_bytes(TEST_SEED_12));
}

#[test]
fn derive_seed_from_phrase_rejects_non_canonical() {
    let phrase = TEST_MNEMONIC_12.replace("abandon about", "abandon  about");
    assert!(matches!(
        Wallet::derive_seed_from_phrase(phrase.as_bytes(), b""),
        Err(WalletError::MalformedMnemonic)
    ));
}

#[test]
fn get_private_key_from_phrase_matches_pinned_vector() {
    let key = Wallet::get_private_key_from_phrase(TEST_MNEMONIC_24.as_bytes(), 0, 0)
        .expect("valid canonical phrase");
    assert_eq!(
        key.as_bytes(),
        &hex_to_bytes("7ebe30f8135120c9f9efc65a93139fa72c9dcffe6d992235d21fd38930cc68b5")
    );
}

#[test]
fn get_private_key_from_phrase_rejects_malformed() {
    assert!(matches!(
        Wallet::get_private_key_from_phrase(b"abandon abandon abandon", 0, 0),
        Err(WalletError::MalformedMnemonic)
    ));
}

#[test]
fn from_phrase_accepts_valid_phrase() {
    let m = Mnemonic::from_phrase(TEST_MNEMONIC_12.as_bytes()).expect("valid");
    assert_eq!(m.phrase().as_slice(), TEST_MNEMONIC_12.as_bytes());
}

#[test]
fn private_key_from_bytes_rejects_wrong_length() {
    assert!(matches!(
        PrivateKey::from_bytes(&[0u8; 31]),
        Err(WalletError::InvalidKeyLength)
    ));
    assert!(matches!(
        PrivateKey::from_bytes(&[0u8; 33]),
        Err(WalletError::InvalidKeyLength)
    ));
}

#[test]
fn private_key_from_bytes_round_trips() {
    let bytes: Vec<u8> = (0u8..32).collect();
    let key = PrivateKey::from_bytes(&bytes).expect("32 bytes accepted");
    assert_eq!(key.as_bytes(), &bytes);
}

#[test]
fn mnemonic_wipe_empties_phrase() {
    let mut m = mnemonic(TEST_MNEMONIC_12);
    m.wipe();
    assert!(m.phrase().is_empty());
}

#[test]
fn wallet_new_constructs() {
    let _w = Wallet::new();
    Wallet::get_address_from_private_key();
}

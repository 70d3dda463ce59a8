use wallet_core::address::validate_address;
use wallet_core::errors::ErrorKind;
use wallet_core::keys::{
    derive_wallet, generate_seed, generate_xkey_with_entropy, get_seed_from_entropy,
    get_xpub_desc_key, validate_seed,
};
use wallet_core::network::NetworkType;

const VECTOR_MNEMONIC: &str =
    "abandon abandon abandon abandon abandon abandon abandon abandon abandon abandon abandon about";

#[test]
fn seed_from_zero_entropy_is_the_reference_vector() {
    let entropy = [0u8; 16];
    let seed = get_seed_from_entropy(NetworkType::Mainnet, &entropy).unwrap();
    assert_eq!(seed.mnemonic, VECTOR_MNEMONIC);
    assert_eq!(seed.fingerprint, "73c5da0a");
    assert!(seed.xprv.starts_with("xprv"));
    assert!(validate_seed(&seed.mnemonic));
}

#[test]
fn seed_from_entropy_is_deterministic_and_network_scoped() {
    let entropy = [7u8; 16];
    let a = get_seed_from_entropy(NetworkType::Testnet, &entropy).unwrap();
    let b = get_seed_from_entropy(NetworkType::Testnet, &entropy).unwrap();
    assert_eq!(a.mnemonic, b.mnemonic);
    assert_eq!(a.xprv, b.xprv);
    assert_eq!(a.fingerprint, b.fingerprint);
    // a testnet key serializes with the testnet version prefix
    assert!(a.xprv.starts_with("tprv"));
    // the fingerprint comes from the key itself, not the serialization
    let main = get_seed_from_entropy(NetworkType::Mainnet, &entropy).unwrap();
    assert_eq!(main.fingerprint, a.fingerprint);
}

#[test]
fn mnemonic_validation_flips_with_the_checksum() {
    // the reference phrase is checksum-valid
    assert!(validate_seed(VECTOR_MNEMONIC));
    // the same words with the last word replaced break the checksum
    let broken =
        "abandon abandon abandon abandon abandon abandon abandon abandon abandon abandon abandon abandon";
    assert!(!validate_seed(broken));
    // a word outside the English list is rejected
    assert!(!validate_seed(
        "abandon abandon abandon abandon abandon abandon abandon abandon abandon abandon abandon aboot"
    ));
    // a wrong word count is rejected
    assert!(!validate_seed("abandon about"));
    assert!(!validate_seed(""));
}

#[test]
fn derivation_is_deterministic() {
    let w1 = derive_wallet(VECTOR_MNEMONIC, None, "m/84'/1'/0'", NetworkType::Testnet).unwrap();
    let w2 = derive_wallet(VECTOR_MNEMONIC, None, "m/84'/1'/0'", NetworkType::Testnet).unwrap();
    assert_eq!(w1.name, w2.name);
    assert_eq!(w1.external_pub, w2.external_pub);
    assert_eq!(w1.internal_pub, w2.internal_pub);
    assert_eq!(w1.external_prv, w2.external_prv);
    assert_eq!(w1.internal_prv, w2.internal_prv);
}

#[test]
fn derivation_shapes_and_wallet_name() {
    let seed = get_seed_from_entropy(NetworkType::Testnet, &[0u8; 16]).unwrap();
    let w = derive_wallet(&seed.mnemonic, None, "m/84'/1'/0'", NetworkType::Testnet).unwrap();
    assert!(w.external_pub.starts_with("wpkh("));
    assert!(w.external_pub.ends_with("/0/*)"));
    assert!(w.internal_pub.starts_with("wpkh("));
    assert!(w.internal_pub.ends_with("/1/*)"));
    assert!(w.external_prv.starts_with("wpkh("));
    assert!(w.external_prv.ends_with("/0/*)"));
    assert!(w.internal_prv.ends_with("/1/*)"));
    // name = <8 hex fingerprint chars>-<network name>
    assert_eq!(seed.fingerprint.len(), 8);
    assert!(seed.fingerprint.chars().all(|c| c.is_ascii_hexdigit()));
    assert_eq!(w.name, format!("{}-testnet", seed.fingerprint));
    assert_eq!(w.name, "73c5da0a-testnet");
    // the descriptor key records its origin: fingerprint, then the path
    assert!(w.external_prv.starts_with("wpkh([73c5da0a/84'/1'/0']"));
}

#[test]
fn passphrase_changes_the_derivation() {
    let plain = derive_wallet(VECTOR_MNEMONIC, None, "m/84'/0'/0'", NetworkType::Mainnet).unwrap();
    let hidden =
        derive_wallet(VECTOR_MNEMONIC, Some("TREZOR"), "m/84'/0'/0'", NetworkType::Mainnet)
            .unwrap();
    assert_ne!(plain.external_pub, hidden.external_pub);
    assert_ne!(plain.name, hidden.name);
    // an empty passphrase derives as no passphrase
    let empty = derive_wallet(VECTOR_MNEMONIC, Some(""), "m/84'/0'/0'", NetworkType::Mainnet)
        .unwrap();
    assert_eq!(plain.external_pub, empty.external_pub);
}

#[test]
fn derivation_rejects_bad_inputs() {
    let e = derive_wallet("not a mnemonic", None, "m/84'/1'/0'", NetworkType::Testnet)
        .unwrap_err();
    assert_eq!(e.kind, ErrorKind::InvalidMnemonic);
    let e2 = derive_wallet(VECTOR_MNEMONIC, None, "m/84q", NetworkType::Testnet).unwrap_err();
    assert_eq!(e2.kind, ErrorKind::InvalidDerivationPath);
}

#[test]
fn xpub_descriptor_key_matches_the_derived_wallet() {
    let seed = get_seed_from_entropy(NetworkType::Testnet, &[0u8; 16]).unwrap();
    let w = derive_wallet(&seed.mnemonic, None, "m/84'/1'/0'", NetworkType::Testnet).unwrap();
    let pub_key = get_xpub_desc_key(&seed.xprv, "m/84'/1'/0'").unwrap();
    // the external public descriptor is wpkh(<key with /* rewritten to /0/*>)
    let stem = &pub_key[..pub_key.len() - 2];
    assert!(pub_key.ends_with("/*"));
    assert_eq!(w.external_pub, format!("wpkh({stem}/0/*)"));
    assert!(get_xpub_desc_key("garbage", "m/84'/1'/0'").is_err());
    assert!(get_xpub_desc_key(&seed.xprv, "m/!").is_err());
}

#[test]
fn generated_seed_reparses_and_rederives() {
    let seed = generate_seed(NetworkType::Testnet).unwrap();
    assert!(validate_seed(&seed.mnemonic));
    assert_eq!(seed.mnemonic.split_whitespace().count(), 12);
    assert_eq!(seed.fingerprint.len(), 8);
    // the returned key and fingerprint belong to the returned phrase
    let again = derive_wallet(&seed.mnemonic, None, "m/84'/1'/0'", NetworkType::Testnet).unwrap();
    assert_eq!(again.name, format!("{}-testnet", seed.fingerprint));
    // two generated seeds are (overwhelmingly) distinct
    let other = generate_seed(NetworkType::Testnet).unwrap();
    assert_ne!(seed.mnemonic, other.mnemonic);
}

#[test]
fn xkey_from_entropy_is_deterministic() {
    let a = generate_xkey_with_entropy(&[9u8; 32]).unwrap();
    let b = generate_xkey_with_entropy(&[9u8; 32]).unwrap();
    let c = generate_xkey_with_entropy(&[10u8; 32]).unwrap();
    assert_eq!(a, b);
    assert_ne!(a, c);
    assert!(a.starts_with("xprv"));
}

#[test]
fn address_validation_is_network_scoped() {
    // the BIP-173 mainnet P2WPKH example
    let mainnet = "bc1qw508d6qejxtdg4y5r3zarvary0c5xw7kv8f3t4";
    assert!(validate_address(NetworkType::Mainnet, mainnet));
    assert!(!validate_address(NetworkType::Testnet, mainnet));
    assert!(!validate_address(NetworkType::Regtest, mainnet));

    // a base58 mainnet address
    let legacy = "1BvBMSEYstWetqTFn5Au4m4GFg7xJaNVN2";
    assert!(validate_address(NetworkType::Mainnet, legacy));
    assert!(!validate_address(NetworkType::Testnet, legacy));

    // not an address at all
    assert!(!validate_address(NetworkType::Mainnet, "not an address"));
    assert!(!validate_address(NetworkType::Testnet, ""));
}

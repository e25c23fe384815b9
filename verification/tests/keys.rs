use elements::bitcoin::bip32::{ChildNumber, Xpriv, Xpub};
use elements::bitcoin::secp256k1::Secp256k1;
use elements::bitcoin::NetworkKind;
use signer::hex::to_hex;
use signer::{DerivationPath, ExtendedPubKey, MasterBlindingKey, Signer, SwSigner, HARDENED};

const SEED_HEX: &str = "5eb00bbddcf069084889a8ab9155568165f5c453ccb85e70811aaed6f6da5fc19a5ac40b389cd370d086206dec8aa6c43daea6690f20ad3d8d48b2d2ce9e38e4";

fn unhex(text: &str) -> Vec<u8> {
    (0..text.len() / 2)
        .map(|i| u8::from_str_radix(&text[2 * i..2 * i + 2], 16).unwrap())
        .collect()
}

fn outside_xpub(mainnet: bool, path: &[u32]) -> Xpub {
    let secp = Secp256k1::new();
    let kind = if mainnet { NetworkKind::Main } else { NetworkKind::Test };
    let master = Xpriv::new_master(kind, &unhex(SEED_HEX)).unwrap();
    let children: Vec<ChildNumber> = path.iter().map(|i| ChildNumber::from(*i)).collect();
    Xpub::from_priv(&secp, &master.derive_priv(&secp, &children).unwrap())
}

#[test]
fn hex_of_bytes() {
    assert_eq!(to_hex(&[]), "");
    assert_eq!(to_hex(&[0x00]), "00");
    assert_eq!(to_hex(&[0x0f, 0xf0, 0xa5]), "0ff0a5");
    assert_eq!(to_hex(&[0x01, 0x23, 0x45, 0x67, 0x89, 0xab, 0xcd, 0xef]), "0123456789abcdef");
    let all: Vec<u8> = (0..=255).collect();
    let expected: String = all.iter().map(|b| format!("{:02x}", b)).collect();
    assert_eq!(to_hex(&all), expected);
}

#[test]
fn path_is_read_as_the_outside_crate_reads_it() {
    let path = DerivationPath::from_str("m/84h/1h/0h").unwrap();
    assert_eq!(path.to_u32_vec(), vec![84 + HARDENED, 1 + HARDENED, HARDENED]);
    assert_eq!(path.len(), 3);
    assert!(!path.is_master());
    let path = DerivationPath::from_str("m/84'/1'/0'/0/7").unwrap();
    assert_eq!(path.to_u32_vec(), vec![84 + HARDENED, 1 + HARDENED, HARDENED, 0, 7]);
    assert!(path.same_as(&DerivationPath::new(vec![84 + HARDENED, 1 + HARDENED, HARDENED, 0, 7])));
    assert!(!path.same_as(&DerivationPath::master()));
}

#[test]
fn master_path_is_empty() {
    assert!(DerivationPath::master().is_master());
    assert_eq!(DerivationPath::master().to_u32_vec(), Vec::<u32>::new());
    assert!(DerivationPath::from_str("m").unwrap().is_master());
    assert_eq!(DerivationPath::master().clone(), DerivationPath::master());
}

#[test]
fn malformed_path_is_refused() {
    assert!(DerivationPath::from_str("m/84x/1").is_err());
    assert!(DerivationPath::from_str("m/4294967296").is_err());
    assert!(DerivationPath::from_str("m//1").is_err());
}

#[test]
fn root_key_is_the_master_key_of_the_seed() {
    let signer = SwSigner::new(&unhex(SEED_HEX), true).unwrap();
    assert_eq!(
        signer.xpub().to_string(),
        "xpub661MyMwAqRbcFkPHucMnrGNzDwb6teAX1RbKQmqtEF8kK3Z7LZ59qafCjB9eCRLiTVG3uxBxgKvRgbubRhqSKXnGGb1aoaqLrpMBDrVxga8"
    );
    assert_eq!(signer.xpub().encode(), outside_xpub(true, &[]).encode().to_vec());
    let signer = SwSigner::new(&unhex(SEED_HEX), false).unwrap();
    assert_eq!(signer.xpub().encode(), outside_xpub(false, &[]).encode().to_vec());
    assert_eq!(signer.xpub().to_string(), outside_xpub(false, &[]).to_string());
}

#[test]
fn root_fingerprint_and_identifier() {
    let signer = SwSigner::new(&unhex(SEED_HEX), false).unwrap();
    assert_eq!(signer.fingerprint().to_string(), "73c5da0a");
    assert_eq!(signer.fingerprint().0, [0x73, 0xc5, 0xda, 0x0a]);
    let outside = outside_xpub(false, &[]);
    assert_eq!(signer.xpub().identifier().to_string(), outside.identifier().to_string());
    assert_eq!(signer.xpub().fingerprint().to_string(), outside.fingerprint().to_string());
    assert_eq!(signer.xpub().identifier().0[..4], signer.fingerprint().0);
    assert!(signer.fingerprint().same_as(&signer.xpub().fingerprint()));
}

#[test]
fn derived_key_is_the_outside_crates_key() {
    let signer = SwSigner::new(&unhex(SEED_HEX), false).unwrap();
    let indices = vec![84 + HARDENED, 1 + HARDENED, HARDENED];
    let key = signer.derive_xpub(&DerivationPath::new(indices.clone())).unwrap();
    let outside = outside_xpub(false, &indices);
    assert_eq!(key.encode(), outside.encode().to_vec());
    assert_eq!(key.to_string(), outside.to_string());
    assert_eq!(key.public_key(), outside.public_key.serialize().to_vec());
    assert_ne!(key.encode(), signer.xpub().encode());
    assert_eq!(
        key.to_string(),
        "tpubDC8msFGeGuwnKG9Upg7DM2b4DaRqg3CUZa5g8v2SRQ6K4NSkxUgd7HsL2XVWbVm39yBA4LAxysQAm397zwQSQoQgewGiYZqrA9DsP4zbQ1M"
    );
}

#[test]
fn derivation_is_the_same_on_every_call_and_in_every_signer() {
    let first = SwSigner::new(&unhex(SEED_HEX), false).unwrap();
    let second = SwSigner::new(&unhex(SEED_HEX), false).unwrap();
    let path = DerivationPath::from_str("m/84h/1h/0h/1/5").unwrap();
    let a = first.derive_xpub(&path).unwrap();
    let b = first.derive_xpub(&path).unwrap();
    let c = second.derive_xpub(&path).unwrap();
    let d = Signer::derive_xpub(&second, &path).unwrap();
    assert_eq!(a, b);
    assert_eq!(a, c);
    assert!(a.same_as(&d));
    let other = SwSigner::new(&[7u8; 32], false).unwrap();
    assert_ne!(other.derive_xpub(&path).unwrap(), a);
}

#[test]
fn key_at_the_master_path_is_the_root_key() {
    let signer = SwSigner::new(&unhex(SEED_HEX), false).unwrap();
    let key = signer.derive_xpub(&DerivationPath::master()).unwrap();
    assert_eq!(key, signer.xpub());
    assert_eq!(key.clone(), key);
}

#[test]
fn path_deeper_than_a_key_can_be_is_refused() {
    let signer = SwSigner::new(&unhex(SEED_HEX), false).unwrap();
    assert!(signer.derive_xpub(&DerivationPath::new(vec![0; 255])).is_ok());
    let err = signer.derive_xpub(&DerivationPath::new(vec![0; 256])).unwrap_err();
    assert!(matches!(
        err,
        signer::SignError::Bip32(elements::bitcoin::bip32::Error::MaximumDepthExceeded)
    ));
}

#[test]
fn xpub_is_taken_from_its_serialization_only_if_valid() {
    let outside = outside_xpub(false, &[1, 2]);
    let key = ExtendedPubKey::decode(&outside.encode()).unwrap();
    assert_eq!(key.encode(), outside.encode().to_vec());
    assert_eq!(key.to_string(), outside.to_string());
    assert_eq!(key.fingerprint().0, outside.fingerprint().to_bytes());
    assert!(ExtendedPubKey::decode(&outside.encode()[..77]).is_err());
    assert!(ExtendedPubKey::decode(&[0u8; 78]).is_err());
    let mut bad_point = outside.encode();
    bad_point[45] = 0x05;
    assert!(ExtendedPubKey::decode(&bad_point).is_err());
}

#[test]
fn master_blinding_key_of_the_seed() {
    let signer = SwSigner::new(&unhex(SEED_HEX), false).unwrap();
    let outside = elements_miniscript::slip77::MasterBlindingKey::from_seed(&unhex(SEED_HEX));
    assert_eq!(signer.slip77().0.to_vec(), outside.as_bytes().to_vec());
    assert_eq!(signer.slip77().to_string(), outside.to_string());
    assert_eq!(
        signer.slip77().to_string(),
        "9c8e4f05c7711a98c838be228bcb84924d4570ca53f35fa1c793e58841d47023"
    );
    assert_eq!(MasterBlindingKey::from_seed(&unhex(SEED_HEX)), signer.slip77());
    assert_eq!(signer.slip77_master_blinding_key().unwrap(), signer.slip77());
    assert_ne!(MasterBlindingKey::from_seed(&[1, 2, 3]), signer.slip77());
}

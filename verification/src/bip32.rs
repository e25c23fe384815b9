//! Key material of BIP32 and SLIP77 as plain bytes, and the calls into the
//! crates that compute it.
//!
//! An extended key is held in its 78-byte BIP32 serialization. Everything that
//! needs secp256k1 or a hash is computed by `elements::bitcoin` and
//! `elements_miniscript`; the private functions whose names end in `_raw` make
//! those calls. Verus does not read their bodies: what each contract says of
//! the outside function is stated in its doc comment and believed.

use vstd::prelude::*;
use elements::bitcoin::bip32::{ChildNumber, Xpriv, Xpub};
use elements::bitcoin::secp256k1::{Message, Secp256k1};
use elements::bitcoin::NetworkKind;

verus! {

/// The error type of `elements::bitcoin::bip32`, carried through unread.
#[verifier::external_type_specification]
#[verifier::external_body]
pub struct ExBip32Error(elements::bitcoin::bip32::Error);

/// Length of a serialized extended key.
pub const EXTENDED_KEY_LEN: usize = 78;

/// Offset of the compressed public key inside a serialized extended public key.
pub const PUBLIC_KEY_OFFSET: usize = 45;

/// Whether `bytes` are accepted by `Xpriv::decode`.
pub uninterp spec fn bip32_xpriv_valid(bytes: Seq<u8>) -> bool;

/// Whether `bytes` are accepted by `Xpub::decode`.
pub uninterp spec fn bip32_xpub_valid(bytes: Seq<u8>) -> bool;

/// The serialized master key that `Xpriv::new_master` makes of a seed, if it makes one.
pub uninterp spec fn bip32_master_key(mainnet: bool, seed: Seq<u8>) -> Option<Seq<u8>>;

/// The serialized key that `Xpriv::derive_priv` reaches from `xprv` along `path`, if it
/// reaches one.
pub uninterp spec fn bip32_private_child(xprv: Seq<u8>, path: Seq<u32>) -> Option<Seq<u8>>;

/// The serialized extended public key that `Xpub::from_priv` gives for `xprv`.
pub uninterp spec fn bip32_neuter(xprv: Seq<u8>) -> Seq<u8>;

/// The 20 bytes that `Xpub::identifier` gives for `xpub`.
pub uninterp spec fn bip32_identifier(xpub: Seq<u8>) -> Seq<u8>;

/// The text that `Xpub` displays as.
pub uninterp spec fn bip32_xpub_text(xpub: Seq<u8>) -> Seq<char>;

/// The child numbers that `DerivationPath::from_str` reads from `text`, if it accepts it.
/// A hardened child has the top bit set.
pub uninterp spec fn bip32_parse_path(text: Seq<char>) -> Option<Seq<u32>>;

/// The 32 bytes that `MasterBlindingKey::from_seed` gives for `seed`.
pub uninterp spec fn slip77_master_key(seed: Seq<u8>) -> Seq<u8>;

/// The DER bytes of the signature that `Secp256k1::sign_ecdsa_low_r` makes of a
/// 32-byte digest with the private key of `xprv`.
pub uninterp spec fn ecdsa_low_r_der(digest: Seq<u8>, xprv: Seq<u8>) -> Seq<u8>;

/// Calls `Xpriv::new_master`.
///
/// Believed: whether it succeeds and the key it returns depend on the network
/// kind and the seed alone, and the serialization of the key it returns is one
/// that `Xpriv::decode` accepts.
#[verifier::external_body]
pub(crate) fn new_master_raw(mainnet: bool, seed: &[u8]) -> (r: Result<
    Vec<u8>,
    elements::bitcoin::bip32::Error,
>)
    ensures
        r is Ok <==> bip32_master_key(mainnet, seed@) is Some,
        r matches Ok(k) ==> bip32_master_key(mainnet, seed@) == Some(k@) && bip32_xpriv_valid(k@),
{
    let kind = if mainnet { NetworkKind::Main } else { NetworkKind::Test };
    Xpriv::new_master(kind, seed).map(|k| k.encode().to_vec())
}

/// Calls `Xpriv::derive_priv` on the key that `xprv` decodes to.
///
/// Believed: whether it succeeds and the key it returns depend on the key and
/// the child numbers alone, and the serialization of the key it returns is one
/// that `Xpriv::decode` accepts. The outside function would panic where an
/// HMAC output is no valid secret key, which its authors hold to be
/// statistically impossible; the contract counts on that.
#[verifier::external_body]
pub(crate) fn derive_priv_raw(xprv: &[u8], path: &[u32]) -> (r: Result<
    Vec<u8>,
    elements::bitcoin::bip32::Error,
>)
    requires
        bip32_xpriv_valid(xprv@),
    ensures
        r is Ok <==> bip32_private_child(xprv@, path@) is Some,
        r matches Ok(k) ==> bip32_private_child(xprv@, path@) == Some(k@) && bip32_xpriv_valid(
            k@,
        ),
{
    let secp = Secp256k1::signing_only();
    let children: Vec<ChildNumber> = path.iter().map(|i| ChildNumber::from(*i)).collect();
    let parent = Xpriv::decode(xprv).unwrap();
    parent.derive_priv(&secp, &children).map(|k| k.encode().to_vec())
}

/// Calls `Xpub::from_priv` on the key that `xprv` decodes to.
///
/// Believed: the public key depends on the private key alone, its
/// serialization has 78 bytes, and `Xpub::decode` accepts it.
#[verifier::external_body]
pub(crate) fn neuter_raw(xprv: &[u8]) -> (r: Vec<u8>)
    requires
        bip32_xpriv_valid(xprv@),
    ensures
        r@ == bip32_neuter(xprv@),
        r@.len() == EXTENDED_KEY_LEN,
        bip32_xpub_valid(r@),
{
    let secp = Secp256k1::signing_only();
    Xpub::from_priv(&secp, &Xpriv::decode(xprv).unwrap()).encode().to_vec()
}

/// Calls `Xpub::decode` and drops the key.
///
/// Believed: it accepts or refuses by the bytes alone, and accepts only 78 bytes.
#[verifier::external_body]
pub(crate) fn check_xpub_raw(bytes: &[u8]) -> (r: Result<(), elements::bitcoin::bip32::Error>)
    ensures
        r is Ok <==> bip32_xpub_valid(bytes@),
        r is Ok ==> bytes@.len() == EXTENDED_KEY_LEN,
{
    Xpub::decode(bytes).map(|_| ())
}

/// Calls `Xpub::identifier` on the key that `xpub` decodes to.
///
/// Believed: the identifier depends on the key alone.
#[verifier::external_body]
pub(crate) fn identifier_raw(xpub: &[u8]) -> (r: [u8; 20])
    requires
        bip32_xpub_valid(xpub@),
    ensures
        r@ == bip32_identifier(xpub@),
{
    elements::bitcoin::hashes::Hash::to_byte_array(Xpub::decode(xpub).unwrap().identifier())
}

/// Formats the key that `xpub` decodes to with its `Display`.
///
/// Believed: the text depends on the key alone.
#[verifier::external_body]
pub(crate) fn xpub_text_raw(xpub: &[u8]) -> (r: String)
    requires
        bip32_xpub_valid(xpub@),
    ensures
        r@ == bip32_xpub_text(xpub@),
{
    format!("{}", Xpub::decode(xpub).unwrap())
}

/// Calls `DerivationPath::from_str`.
///
/// Believed: it accepts or refuses by the text alone, and so are the child
/// numbers it reads.
#[verifier::external_body]
pub(crate) fn parse_path_raw(text: &str) -> (r: Result<Vec<u32>, elements::bitcoin::bip32::Error>)
    ensures
        r is Ok <==> bip32_parse_path(text@) is Some,
        r matches Ok(p) ==> bip32_parse_path(text@) == Some(p@),
{
    text.parse::<elements::bitcoin::bip32::DerivationPath>().map(|p| p.to_u32_vec())
}

/// Calls `MasterBlindingKey::from_seed`.
///
/// Believed: the key depends on the seed alone.
#[verifier::external_body]
pub(crate) fn slip77_raw(seed: &[u8]) -> (r: [u8; 32])
    ensures
        r@ == slip77_master_key(seed@),
{
    let key = elements_miniscript::slip77::MasterBlindingKey::from_seed(seed);
    let mut out = [0u8; 32];
    out.copy_from_slice(key.as_bytes());
    out
}

/// Calls `Secp256k1::sign_ecdsa_low_r` with the private key of `xprv` and
/// serializes the signature in DER.
///
/// Believed: the signature depends on the digest and the key alone (the nonce
/// is that of RFC 6979, ground by a counter).
#[verifier::external_body]
pub(crate) fn sign_raw(digest: &[u8], xprv: &[u8]) -> (r: Vec<u8>)
    requires
        digest@.len() == 32,
        bip32_xpriv_valid(xprv@),
    ensures
        r@ == ecdsa_low_r_der(digest@, xprv@),
{
    let secp = Secp256k1::signing_only();
    let message = Message::from_digest(digest.try_into().unwrap());
    let key = Xpriv::decode(xprv).unwrap().private_key;
    secp.sign_ecdsa_low_r(&message, &key).serialize_der().to_vec()
}

} // verus!

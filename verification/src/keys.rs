//! Derivation paths, extended keys, fingerprints and the master blinding key.

use vstd::prelude::*;
use crate::bip32::{
    bip32_identifier, bip32_master_key, bip32_neuter, bip32_parse_path, bip32_private_child,
    bip32_xpriv_valid, bip32_xpub_text, bip32_xpub_valid, check_xpub_raw, derive_priv_raw,
    ecdsa_low_r_der, identifier_raw, neuter_raw, new_master_raw, parse_path_raw, sign_raw,
    slip77_master_key, slip77_raw, xpub_text_raw, EXTENDED_KEY_LEN, PUBLIC_KEY_OFFSET,
};
use crate::equal::{bytes_copy, bytes_eq};
use crate::hex::{hex_text, to_hex};

verus! {

/// The bit that marks a child number as hardened.
pub const HARDENED: u32 = 0x8000_0000;

/// A path of child numbers from a root key. A hardened child has `HARDENED` set.
#[derive(Debug, PartialEq, Eq)]
pub struct DerivationPath {
    indices: Vec<u32>,
}

impl View for DerivationPath {
    type V = Seq<u32>;

    closed spec fn view(&self) -> Seq<u32> {
        self.indices@
    }
}

impl Clone for DerivationPath {
    fn clone(&self) -> (r: Self)
        ensures
            r@ == self@,
    {
        DerivationPath { indices: vstd::slice::slice_to_vec(self.indices.as_slice()) }
    }
}

impl DerivationPath {
    /// The empty path, which stays at the root key.
    pub fn master() -> (r: DerivationPath)
        ensures
            r@ == Seq::<u32>::empty(),
    {
        DerivationPath { indices: Vec::new() }
    }

    /// The path of the given child numbers.
    pub fn new(indices: Vec<u32>) -> (r: DerivationPath)
        ensures
            r@ == indices@,
    {
        DerivationPath { indices }
    }

    /// Reads a path such as `m/84h/1h/0h` as `elements::bitcoin` reads it.
    pub fn from_str(text: &str) -> (r: Result<DerivationPath, elements::bitcoin::bip32::Error>)
        ensures
            r is Ok <==> bip32_parse_path(text@) is Some,
            r matches Ok(p) ==> bip32_parse_path(text@) == Some(p@),
    {
        match parse_path_raw(text) {
            Ok(indices) => Ok(DerivationPath { indices }),
            Err(e) => Err(e),
        }
    }

    /// The child numbers, first step first.
    pub fn as_slice(&self) -> (r: &[u32])
        ensures
            r@ == self@,
    {
        self.indices.as_slice()
    }

    /// The child numbers as a vector.
    pub fn to_u32_vec(&self) -> (r: Vec<u32>)
        ensures
            r@ == self@,
    {
        vstd::slice::slice_to_vec(self.indices.as_slice())
    }

    /// Number of steps.
    pub fn len(&self) -> (r: usize)
        ensures
            r == self@.len(),
    {
        self.indices.len()
    }

    /// Whether the path is empty.
    pub fn is_master(&self) -> (r: bool)
        ensures
            r == (self@.len() == 0),
    {
        self.indices.len() == 0
    }

    /// Whether two paths have the same steps.
    pub fn same_as(&self, other: &DerivationPath) -> (r: bool)
        ensures
            r == (self@ == other@),
    {
        if self.indices.len() != other.indices.len() {
            return false;
        }
        let mut i: usize = 0;
        while i < self.indices.len()
            invariant
                i <= self.indices.len(),
                self.indices.len() == other.indices.len(),
                forall|k: int| 0 <= k < i ==> self.indices@[k] == other.indices@[k],
            decreases self.indices.len() - i,
        {
            if self.indices[i] != other.indices[i] {
                return false;
            }
            i = i + 1;
        }
        assert(self.indices@ =~= other.indices@);
        true
    }
}

/// The first four bytes of a key identifier.
#[derive(Clone, Copy, Debug, PartialEq, Eq)]
pub struct Fingerprint(pub [u8; 4]);

impl View for Fingerprint {
    type V = Seq<u8>;

    open spec fn view(&self) -> Seq<u8> {
        self.0@
    }
}

impl Fingerprint {
    /// Eight lower-case hexadecimal digits.
    pub fn to_string(&self) -> (r: String)
        ensures
            r@ == hex_text(self@),
    {
        to_hex(self.0.as_slice())
    }

    /// Whether two fingerprints hold the same bytes.
    pub fn same_as(&self, other: &Fingerprint) -> (r: bool)
        ensures
            r == (self@ == other@),
    {
        bytes_eq(self.0.as_slice(), other.0.as_slice())
    }
}

/// The 20-byte identifier of an extended public key.
#[derive(Clone, Copy, Debug, PartialEq, Eq)]
pub struct XpubIdentifier(pub [u8; 20]);

impl View for XpubIdentifier {
    type V = Seq<u8>;

    open spec fn view(&self) -> Seq<u8> {
        self.0@
    }
}

impl XpubIdentifier {
    /// Forty lower-case hexadecimal digits.
    pub fn to_string(&self) -> (r: String)
        ensures
            r@ == hex_text(self@),
    {
        to_hex(self.0.as_slice())
    }
}

/// The fingerprint of the key serialized in `xpub`: the first four bytes of its identifier.
pub open spec fn fingerprint_of(xpub: Seq<u8>) -> Seq<u8> {
    bip32_identifier(xpub).subrange(0, 4)
}

/// The compressed public key inside a serialized extended public key.
pub open spec fn public_key_of(xpub: Seq<u8>) -> Seq<u8> {
    xpub.subrange(PUBLIC_KEY_OFFSET as int, EXTENDED_KEY_LEN as int)
}

/// An extended public key, in its BIP32 serialization.
#[derive(Debug, PartialEq, Eq)]
pub struct ExtendedPubKey {
    bytes: Vec<u8>,
}

impl View for ExtendedPubKey {
    type V = Seq<u8>;

    closed spec fn view(&self) -> Seq<u8> {
        self.bytes@
    }
}

impl Clone for ExtendedPubKey {
    fn clone(&self) -> (r: Self)
        ensures
            r@ == self@,
    {
        proof {
            use_type_invariant(self);
        }
        ExtendedPubKey { bytes: bytes_copy(self.bytes.as_slice()) }
    }
}

impl ExtendedPubKey {
    #[verifier::type_invariant]
    spec fn well_formed(self) -> bool {
        &&& self.bytes@.len() == EXTENDED_KEY_LEN
        &&& bip32_xpub_valid(self.bytes@)
    }

    /// Takes a serialized key if `elements::bitcoin` accepts it.
    pub fn decode(bytes: &[u8]) -> (r: Result<ExtendedPubKey, elements::bitcoin::bip32::Error>)
        ensures
            r is Ok <==> bip32_xpub_valid(bytes@),
            r matches Ok(x) ==> x@ == bytes@,
    {
        match check_xpub_raw(bytes) {
            Ok(_) => Ok(ExtendedPubKey { bytes: bytes_copy(bytes) }),
            Err(e) => Err(e),
        }
    }

    /// The serialization.
    pub fn encode(&self) -> (r: Vec<u8>)
        ensures
            r@ == self@,
    {
        bytes_copy(self.bytes.as_slice())
    }

    /// The compressed public key.
    pub fn public_key(&self) -> (r: Vec<u8>)
        ensures
            r@ == public_key_of(self@),
    {
        proof {
            use_type_invariant(self);
        }
        let part = vstd::slice::slice_subrange(
            self.bytes.as_slice(),
            PUBLIC_KEY_OFFSET,
            EXTENDED_KEY_LEN,
        );
        bytes_copy(part)
    }

    /// The identifier of the key.
    pub fn identifier(&self) -> (r: XpubIdentifier)
        ensures
            r@ == bip32_identifier(self@),
    {
        proof {
            use_type_invariant(self);
        }
        XpubIdentifier(identifier_raw(self.bytes.as_slice()))
    }

    /// The first four bytes of the identifier.
    pub fn fingerprint(&self) -> (r: Fingerprint)
        ensures
            r@ == fingerprint_of(self@),
    {
        let id = self.identifier();
        let r = Fingerprint([id.0[0], id.0[1], id.0[2], id.0[3]]);
        assert(r@ =~= fingerprint_of(self@));
        r
    }

    /// The base58 text of the key.
    pub fn to_string(&self) -> (r: String)
        ensures
            r@ == bip32_xpub_text(self@),
    {
        proof {
            use_type_invariant(self);
        }
        xpub_text_raw(self.bytes.as_slice())
    }

    /// Whether two keys have the same serialization.
    pub fn same_as(&self, other: &ExtendedPubKey) -> (r: bool)
        ensures
            r == (self@ == other@),
    {
        bytes_eq(self.bytes.as_slice(), other.bytes.as_slice())
    }
}

/// The private key that `path` leads to from `xprv`: `xprv` itself for the
/// empty path, else what the outside derivation reaches.
pub open spec fn private_key_at(xprv: Seq<u8>, path: Seq<u32>) -> Option<Seq<u8>> {
    if path.len() == 0 {
        Some(xprv)
    } else {
        bip32_private_child(xprv, path)
    }
}

/// The extended public key that `path` leads to from `xprv`.
pub open spec fn public_key_at(xprv: Seq<u8>, path: Seq<u32>) -> Option<Seq<u8>> {
    match private_key_at(xprv, path) {
        Some(k) => Some(bip32_neuter(k)),
        None => None,
    }
}

/// The raw signature that the key `xprv` gives for a 32-byte digest: the DER
/// signature followed by the flag for signing all inputs and outputs.
pub open spec fn signature_of(digest: Seq<u8>, xprv: Seq<u8>) -> Seq<u8> {
    ecdsa_low_r_der(digest, xprv).push(SIGHASH_ALL)
}

/// The signature-hash flag that commits to all inputs and outputs.
pub const SIGHASH_ALL: u8 = 1;

/// An extended private key, in its BIP32 serialization.
pub(crate) struct ExtendedPrivKey {
    bytes: Vec<u8>,
}

impl View for ExtendedPrivKey {
    type V = Seq<u8>;

    closed spec fn view(&self) -> Seq<u8> {
        self.bytes@
    }
}

impl ExtendedPrivKey {
    #[verifier::type_invariant]
    spec fn well_formed(self) -> bool {
        bip32_xpriv_valid(self.bytes@)
    }

    /// The master key of a seed.
    pub(crate) fn new_master(mainnet: bool, seed: &[u8]) -> (r: Result<
        ExtendedPrivKey,
        elements::bitcoin::bip32::Error,
    >)
        ensures
            r is Ok <==> bip32_master_key(mainnet, seed@) is Some,
            r matches Ok(k) ==> bip32_master_key(mainnet, seed@) == Some(k@),
    {
        match new_master_raw(mainnet, seed) {
            Ok(bytes) => Ok(ExtendedPrivKey { bytes }),
            Err(e) => Err(e),
        }
    }

    /// The key that `path` leads to.
    pub(crate) fn derive_priv(&self, path: &DerivationPath) -> (r: Result<
        ExtendedPrivKey,
        elements::bitcoin::bip32::Error,
    >)
        ensures
            r is Ok <==> private_key_at(self@, path@) is Some,
            r matches Ok(k) ==> private_key_at(self@, path@) == Some(k@),
    {
        proof {
            use_type_invariant(self);
        }
        if path.is_master() {
            Ok(ExtendedPrivKey { bytes: bytes_copy(self.bytes.as_slice()) })
        } else {
            match derive_priv_raw(self.bytes.as_slice(), path.as_slice()) {
                Ok(bytes) => Ok(ExtendedPrivKey { bytes }),
                Err(e) => Err(e),
            }
        }
    }

    /// The extended public key of this key.
    pub(crate) fn to_xpub(&self) -> (r: ExtendedPubKey)
        ensures
            r@ == bip32_neuter(self@),
    {
        proof {
            use_type_invariant(self);
        }
        ExtendedPubKey { bytes: neuter_raw(self.bytes.as_slice()) }
    }

    /// Signs a 32-byte digest and appends the flag for signing everything.
    pub(crate) fn sign(&self, digest: &[u8]) -> (r: Vec<u8>)
        requires
            digest@.len() == 32,
        ensures
            r@ == signature_of(digest@, self@),
    {
        proof {
            use_type_invariant(self);
        }
        let mut sig = sign_raw(digest, self.bytes.as_slice());
        sig.push(SIGHASH_ALL);
        sig
    }
}

/// The SLIP77 master blinding key.
#[derive(Clone, Copy, Debug, PartialEq, Eq)]
pub struct MasterBlindingKey(pub [u8; 32]);

impl View for MasterBlindingKey {
    type V = Seq<u8>;

    open spec fn view(&self) -> Seq<u8> {
        self.0@
    }
}

impl MasterBlindingKey {
    /// The master blinding key of a seed.
    pub fn from_seed(seed: &[u8]) -> (r: MasterBlindingKey)
        ensures
            r@ == slip77_master_key(seed@),
    {
        MasterBlindingKey(slip77_raw(seed))
    }

    /// Sixty-four lower-case hexadecimal digits.
    pub fn to_string(&self) -> (r: String)
        ensures
            r@ == hex_text(self@),
    {
        to_hex(self.0.as_slice())
    }
}

} // verus!

//! Signing core of a confidential-asset wallet: the capability that every
//! signing backend offers, a backend that holds its secret in memory, the
//! dispatcher over the closed set of backends, and the builder of the wallet
//! descriptor.
//!
//! Key material is held as plain bytes, in the serializations that BIP32 and
//! SLIP77 define. The cryptography is done by `elements` and the crates that
//! it re-exports. Every call into them is a private function of `bip32`,
//! whose contract is stated there and believed, not proved; all else is
//! verified against those contracts.

pub mod args;
pub mod bip32;
pub mod descriptor;
pub mod dispatch;
pub mod equal;
pub mod hex;
pub mod keys;
pub mod laws;
pub mod pset;
pub mod signer;
pub mod software;

pub use crate::args::{
    Cli, CliCommand, Network, ServerArgs, ServerCommand, SignerArgs, SignerCommand, WalletArgs,
    WalletCommand,
};
pub use crate::descriptor::{
    assemble_descriptor, singlesig_desc, Bip, DescriptorBlindingKey, DescriptorError,
    InvalidBipVariant, InvalidBlindingKeyVariant, InvalidSinglesigVariant, Singlesig,
};
pub use crate::dispatch::{AnySigner, SignerError};
pub use crate::keys::{
    DerivationPath, ExtendedPubKey, Fingerprint, MasterBlindingKey, XpubIdentifier, HARDENED,
};
pub use crate::pset::{KeyOrigin, PartialSig, Pset, PsetInput};
pub use crate::signer::Signer;
pub use crate::software::{NewError, SignError, SwSigner};

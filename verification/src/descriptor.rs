//! The descriptor of a single-signature confidential wallet, and the parsers
//! of the variants that select it.

use vstd::prelude::*;
use vstd::string::StringExecFns;
use crate::bip32::{bip32_parse_path, bip32_xpub_text};
use crate::equal::str_eq;
use crate::hex::hex_text;
use crate::keys::{fingerprint_of, DerivationPath, ExtendedPubKey, MasterBlindingKey};
use crate::signer::Signer;

verus! {

/// Script shape of a single-signature wallet.
#[derive(Clone, Copy, Debug, PartialEq, Eq)]
pub enum Singlesig {
    /// Pay to witness public key hash.
    Wpkh,
    /// Pay to witness public key hash, wrapped in pay to script hash.
    ShWpkh,
}

/// A token that names no script shape.
#[derive(Debug)]
pub struct InvalidSinglesigVariant(String);

impl View for InvalidSinglesigVariant {
    type V = Seq<char>;

    closed spec fn view(&self) -> Seq<char> {
        self.0@
    }
}

/// The message for a token that names no script shape.
pub open spec fn invalid_singlesig_message(token: Seq<char>) -> Seq<char> {
    "Invalid singlesig variant '"@ + token + "' supported variant are: 'wpkh', 'shwpkh'"@
}

impl InvalidSinglesigVariant {
    /// The token that was refused.
    pub fn token(&self) -> (r: &str)
        ensures
            r@ == self@,
    {
        self.0.as_str()
    }

    /// The message, which quotes the token and lists the tokens that are accepted.
    pub fn to_string(&self) -> (r: String)
        ensures
            r@ == invalid_singlesig_message(self@),
    {
        let mut out = String::from_str("Invalid singlesig variant '");
        out.append(self.0.as_str());
        out.append("' supported variant are: 'wpkh', 'shwpkh'");
        out
    }
}

impl Singlesig {
    /// The token of this shape.
    pub open spec fn token(self) -> Seq<char> {
        match self {
            Singlesig::Wpkh => "wpkh"@,
            Singlesig::ShWpkh => "shwpkh"@,
        }
    }

    /// What opens the script part of the descriptor.
    pub open spec fn prefix(self) -> Seq<char> {
        match self {
            Singlesig::Wpkh => "elwpkh"@,
            Singlesig::ShWpkh => "elsh(wpkh"@,
        }
    }

    /// The account path, as it stands in the descriptor.
    pub open spec fn path(self) -> Seq<char> {
        match self {
            Singlesig::Wpkh => "84h/1h/0h"@,
            Singlesig::ShWpkh => "84h/1h/0h"@,
        }
    }

    /// What closes the script part of the descriptor.
    pub open spec fn suffix(self) -> Seq<char> {
        match self {
            Singlesig::Wpkh => ""@,
            Singlesig::ShWpkh => ")"@,
        }
    }

    /// Prefix, account path and suffix of this shape.
    pub fn template(&self) -> (r: (&'static str, &'static str, &'static str))
        ensures
            r.0@ == self.prefix(),
            r.1@ == self.path(),
            r.2@ == self.suffix(),
    {
        match self {
            Singlesig::Wpkh => ("elwpkh", "84h/1h/0h", ""),
            Singlesig::ShWpkh => ("elsh(wpkh", "84h/1h/0h", ")"),
        }
    }

    /// Reads `wpkh` or `shwpkh`; any other text is refused and handed back.
    pub fn from_str(s: &str) -> (r: Result<Singlesig, InvalidSinglesigVariant>)
        ensures
            match r {
                Ok(v) => s@ == v.token(),
                Err(e) => s@ != "wpkh"@ && s@ != "shwpkh"@ && e@ == s@,
            },
    {
        if str_eq(s, "wpkh") {
            Ok(Singlesig::Wpkh)
        } else if str_eq(s, "shwpkh") {
            Ok(Singlesig::ShWpkh)
        } else {
            Err(InvalidSinglesigVariant(s.to_owned()))
        }
    }
}

impl core::str::FromStr for Singlesig {
    type Err = InvalidSinglesigVariant;

    /// Reads `wpkh` or `shwpkh`; any other text is refused and handed back.
    fn from_str(s: &str) -> (r: Result<Singlesig, InvalidSinglesigVariant>)
        ensures
            match r {
                Ok(v) => s@ == v.token(),
                Err(e) => s@ != "wpkh"@ && s@ != "shwpkh"@ && e@ == s@,
            },
    {
        Singlesig::from_str(s)
    }
}

/// How the blinding key of a descriptor is given.
#[derive(Clone, Copy, Debug, PartialEq, Eq)]
pub enum DescriptorBlindingKey {
    /// By the SLIP77 master blinding key.
    Slip77,
}

/// A token that names no way to give the blinding key.
#[derive(Debug)]
pub struct InvalidBlindingKeyVariant(String);

impl View for InvalidBlindingKeyVariant {
    type V = Seq<char>;

    closed spec fn view(&self) -> Seq<char> {
        self.0@
    }
}

/// The message for a token that names no way to give the blinding key.
pub open spec fn invalid_blinding_key_message(token: Seq<char>) -> Seq<char> {
    "Invalid blinding key variant '"@ + token + "' supported variant are: 'slip77'"@
}

impl InvalidBlindingKeyVariant {
    /// The token that was refused.
    pub fn token(&self) -> (r: &str)
        ensures
            r@ == self@,
    {
        self.0.as_str()
    }

    /// The message, which quotes the token and lists the tokens that are accepted.
    pub fn to_string(&self) -> (r: String)
        ensures
            r@ == invalid_blinding_key_message(self@),
    {
        let mut out = String::from_str("Invalid blinding key variant '");
        out.append(self.0.as_str());
        out.append("' supported variant are: 'slip77'");
        out
    }
}

impl DescriptorBlindingKey {
    /// The token of this variant.
    pub open spec fn token(self) -> Seq<char> {
        match self {
            DescriptorBlindingKey::Slip77 => "slip77"@,
        }
    }

    /// Reads `slip77`; any other text is refused and handed back.
    pub fn from_str(s: &str) -> (r: Result<DescriptorBlindingKey, InvalidBlindingKeyVariant>)
        ensures
            match r {
                Ok(v) => s@ == v.token(),
                Err(e) => s@ != "slip77"@ && e@ == s@,
            },
    {
        if str_eq(s, "slip77") {
            Ok(DescriptorBlindingKey::Slip77)
        } else {
            Err(InvalidBlindingKeyVariant(s.to_owned()))
        }
    }
}

impl core::str::FromStr for DescriptorBlindingKey {
    type Err = InvalidBlindingKeyVariant;

    /// Reads `slip77`; any other text is refused and handed back.
    fn from_str(s: &str) -> (r: Result<DescriptorBlindingKey, InvalidBlindingKeyVariant>)
        ensures
            match r {
                Ok(v) => s@ == v.token(),
                Err(e) => s@ != "slip77"@ && e@ == s@,
            },
    {
        DescriptorBlindingKey::from_str(s)
    }
}

/// The standard that fixes the account path.
#[derive(Clone, Copy, Debug, PartialEq, Eq)]
pub enum Bip {
    /// BIP84.
    Bip84,
}

/// A token that names no account standard.
#[derive(Debug)]
pub struct InvalidBipVariant(String);

impl View for InvalidBipVariant {
    type V = Seq<char>;

    closed spec fn view(&self) -> Seq<char> {
        self.0@
    }
}

/// The message for a token that names no account standard.
pub open spec fn invalid_bip_message(token: Seq<char>) -> Seq<char> {
    "Invalid bip  variant '"@ + token + "' supported variant are: 'bip84'"@
}

impl InvalidBipVariant {
    /// The token that was refused.
    pub fn token(&self) -> (r: &str)
        ensures
            r@ == self@,
    {
        self.0.as_str()
    }

    /// The message, which quotes the token and lists the tokens that are accepted.
    pub fn to_string(&self) -> (r: String)
        ensures
            r@ == invalid_bip_message(self@),
    {
        let mut out = String::from_str("Invalid bip  variant '");
        out.append(self.0.as_str());
        out.append("' supported variant are: 'bip84'");
        out
    }
}

impl Bip {
    /// The token of this variant.
    pub open spec fn token(self) -> Seq<char> {
        match self {
            Bip::Bip84 => "bip84"@,
        }
    }

    /// Reads `bip84`; any other text is refused and handed back.
    pub fn from_str(s: &str) -> (r: Result<Bip, InvalidBipVariant>)
        ensures
            match r {
                Ok(v) => s@ == v.token(),
                Err(e) => s@ != "bip84"@ && e@ == s@,
            },
    {
        if str_eq(s, "bip84") {
            Ok(Bip::Bip84)
        } else {
            Err(InvalidBipVariant(s.to_owned()))
        }
    }
}

impl core::str::FromStr for Bip {
    type Err = InvalidBipVariant;

    /// Reads `bip84`; any other text is refused and handed back.
    fn from_str(s: &str) -> (r: Result<Bip, InvalidBipVariant>)
        ensures
            match r {
                Ok(v) => s@ == v.token(),
                Err(e) => s@ != "bip84"@ && e@ == s@,
            },
    {
        Bip::from_str(s)
    }
}

/// Why no descriptor could be built.
#[derive(Debug)]
pub enum DescriptorError<E> {
    /// The account path of the script shape is no derivation path.
    Path(elements::bitcoin::bip32::Error),
    /// The signer failed to hand out a key.
    Signer(E),
}

/// The blinding key as it stands in a descriptor.
pub open spec fn blinding_text(variant: DescriptorBlindingKey, blinding_key: Seq<u8>) -> Seq<char> {
    match variant {
        DescriptorBlindingKey::Slip77 => "slip77("@ + hex_text(blinding_key) + ")"@,
    }
}

/// The text that the account path of a script shape is derived from.
pub open spec fn account_path_text(script: Singlesig) -> Seq<char> {
    "m/"@ + script.path()
}

/// The descriptor of the wallet with the given blinding key, whose root key
/// is `master` and whose account key is `account` (both serialized):
/// `ct(<blinding key>,<prefix>([<fingerprint>/<path>]<account key>/<0;1>/*)<suffix>)`.
pub open spec fn descriptor_text(
    script: Singlesig,
    blinding: DescriptorBlindingKey,
    blinding_key: Seq<u8>,
    master: Seq<u8>,
    account: Seq<u8>,
) -> Seq<char> {
    "ct("@ + blinding_text(blinding, blinding_key) + ","@ + script.prefix() + "(["@ + hex_text(
        fingerprint_of(master),
    ) + "/"@ + script.path() + "]"@ + bip32_xpub_text(account) + "/<0;1>/*)"@ + script.suffix()
        + ")"@
}

/// Writes the descriptor of the wallet with the given keys.
pub fn assemble_descriptor(
    script: Singlesig,
    blinding: DescriptorBlindingKey,
    blinding_key: &MasterBlindingKey,
    master: &ExtendedPubKey,
    account: &ExtendedPubKey,
) -> (r: String)
    ensures
        r@ == descriptor_text(script, blinding, blinding_key@, master@, account@),
{
    let (prefix, path, suffix) = script.template();
    let blinding_repr = match blinding {
        DescriptorBlindingKey::Slip77 => {
            let mut b = String::from_str("slip77(");
            b.append(blinding_key.to_string().as_str());
            b.append(")");
            b
        },
    };
    let mut out = String::from_str("ct(");
    out.append(blinding_repr.as_str());
    out.append(",");
    out.append(prefix);
    out.append("([");
    out.append(master.fingerprint().to_string().as_str());
    out.append("/");
    out.append(path);
    out.append("]");
    out.append(account.to_string().as_str());
    out.append("/<0;1>/*)");
    out.append(suffix);
    out.append(")");
    out
}

/// The account path of a script shape, read from its text.
pub fn account_path(script: Singlesig) -> (r: Result<
    DerivationPath,
    elements::bitcoin::bip32::Error,
>)
    ensures
        r is Ok <==> bip32_parse_path(account_path_text(script)) is Some,
        r matches Ok(p) ==> bip32_parse_path(account_path_text(script)) == Some(p@),
{
    let (_, path, _) = script.template();
    let mut text = String::from_str("m/");
    text.append(path);
    DerivationPath::from_str(text.as_str())
}

/// Builds the descriptor of the single-signature wallet of `signer`.
///
/// Asks the signer for its root key, for the key at the account path of the
/// script shape and for its master blinding key. If the signer answers all
/// three, the result is the descriptor of those keys; if it fails once, its
/// error is returned and nothing else. A signer that always answers fails
/// only where its secret yields no key.
pub fn singlesig_desc<S: Signer>(
    signer: &S,
    script_variant: Singlesig,
    blinding_variant: DescriptorBlindingKey,
) -> (r: Result<String, DescriptorError<S::Error>>)
    ensures
        match r {
            Ok(d) => {
                &&& bip32_parse_path(account_path_text(script_variant)) matches Some(path)
                &&& signer.xpub_at(Seq::empty()) matches Some(master)
                &&& signer.xpub_at(path) matches Some(account)
                &&& d@ == descriptor_text(
                    script_variant,
                    blinding_variant,
                    signer.blinding_key(),
                    master,
                    account,
                )
            },
            Err(DescriptorError::Path(_)) => bip32_parse_path(account_path_text(script_variant))
                is None,
            Err(DescriptorError::Signer(_)) => bip32_parse_path(account_path_text(script_variant))
                is Some,
        },
        signer.always_answers() ==> (r is Ok <==> {
            &&& bip32_parse_path(account_path_text(script_variant)) matches Some(path)
            &&& signer.xpub_at(Seq::empty()) is Some
            &&& signer.xpub_at(path) is Some
        }),
{
    let path = match account_path(script_variant) {
        Ok(p) => p,
        Err(e) => {
            return Err(DescriptorError::Path(e));
        },
    };
    let master = match signer.derive_xpub(&DerivationPath::master()) {
        Ok(x) => x,
        Err(e) => {
            return Err(DescriptorError::Signer(e));
        },
    };
    let account = match signer.derive_xpub(&path) {
        Ok(x) => x,
        Err(e) => {
            return Err(DescriptorError::Signer(e));
        },
    };
    let blinding_key = match signer.slip77_master_blinding_key() {
        Ok(k) => k,
        Err(e) => {
            return Err(DescriptorError::Signer(e));
        },
    };
    Ok(assemble_descriptor(script_variant, blinding_variant, &blinding_key, &master, &account))
}

} // verus!

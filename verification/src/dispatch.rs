//! The closed set of signing backends, behind one interface and one error type.

use vstd::prelude::*;
use crate::bip32::bip32_identifier;
use crate::keys::{
    fingerprint_of, DerivationPath, ExtendedPubKey, Fingerprint, MasterBlindingKey,
    XpubIdentifier,
};
use crate::pset::{well_formed, Pset};
use crate::signer::Signer;
use crate::software::{derivation_fails, signed, SignError, SwSigner};

verus! {

/// What went wrong in a signer, whichever backend it was.
#[derive(Debug)]
pub enum SignerError<E> {
    /// The software signer failed.
    Software(SignError),
    /// The device failed to sign.
    Jade(E),
    /// The device failed to hand out a key.
    JadeError(E),
}

/// A signer of one of the two kinds: in memory, or a device behind `R`.
pub enum AnySigner<R> {
    /// The root secret is held in memory.
    Software(SwSigner),
    /// The root secret is held by a device.
    Jade(R),
}

impl<R: Signer> AnySigner<R> {
    /// The extended public key of the root: the key at the empty path.
    /// The software signer always has one.
    pub fn xpub(&self) -> (r: Result<ExtendedPubKey, SignerError<R::Error>>)
        ensures
            r matches Ok(x) ==> self.xpub_at(Seq::empty()) == Some(x@),
            self.always_answers() ==> (r is Ok <==> self.xpub_at(Seq::empty()) is Some),
            self is Software ==> r is Ok,
            r matches Err(e) ==> e is JadeError,
    {
        self.derive_xpub(&DerivationPath::master())
    }

    /// The identifier of the root's extended public key.
    pub fn id(&self) -> (r: Result<XpubIdentifier, SignerError<R::Error>>)
        ensures
            r matches Ok(id) ==> self.xpub_at(Seq::empty()) matches Some(x) && id@
                == bip32_identifier(x),
            self.always_answers() ==> (r is Ok <==> self.xpub_at(Seq::empty()) is Some),
            self is Software ==> r is Ok,
            r matches Err(e) ==> e is JadeError,
    {
        match self.xpub() {
            Ok(x) => Ok(x.identifier()),
            Err(e) => Err(e),
        }
    }

    /// The fingerprint of the root's extended public key.
    pub fn fingerprint(&self) -> (r: Result<Fingerprint, SignerError<R::Error>>)
        ensures
            r matches Ok(f) ==> self.xpub_at(Seq::empty()) matches Some(x) && f@ == fingerprint_of(
                x,
            ),
            self.always_answers() ==> (r is Ok <==> self.xpub_at(Seq::empty()) is Some),
            self is Software ==> r is Ok,
            r matches Err(e) ==> e is JadeError,
    {
        match self.xpub() {
            Ok(x) => Ok(x.fingerprint()),
            Err(e) => Err(e),
        }
    }
}

impl<R: Signer> Signer for AnySigner<R> {
    type Error = SignerError<R::Error>;

    open spec fn xpub_at(&self, path: Seq<u32>) -> Option<Seq<u8>> {
        match self {
            AnySigner::Software(s) => s.xpub_at(path),
            AnySigner::Jade(j) => j.xpub_at(path),
        }
    }

    open spec fn blinding_key(&self) -> Seq<u8> {
        match self {
            AnySigner::Software(s) => s.blinding_key(),
            AnySigner::Jade(j) => j.blinding_key(),
        }
    }

    open spec fn always_answers(&self) -> bool {
        match self {
            AnySigner::Software(s) => s.always_answers(),
            AnySigner::Jade(j) => j.always_answers(),
        }
    }

    /// Signs with the backend at hand. A failure of the software signer comes
    /// back as `Software`, one of the device as `Jade`.
    fn sign(&self, pset: &mut Pset) -> (r: Result<u32, SignerError<R::Error>>)
        ensures
            match self {
                AnySigner::Software(s) => {
                    &&& r is Ok <==> well_formed(old(pset)@) && !derivation_fails(
                        s.root(),
                        old(pset)@,
                    )
                    &&& r is Ok ==> final(pset)@ == signed(s.root(), old(pset)@)
                    &&& r matches Err(e) ==> e is Software
                },
                AnySigner::Jade(_) => r matches Err(e) ==> e is Jade,
            },
    {
        match self {
            AnySigner::Software(s) => match s.sign(pset) {
                Ok(n) => Ok(n),
                Err(e) => Err(SignerError::Software(e)),
            },
            AnySigner::Jade(j) => match j.sign(pset) {
                Ok(n) => Ok(n),
                Err(e) => Err(SignerError::Jade(e)),
            },
        }
    }

    /// Derives with the backend at hand. A failure of the software signer
    /// comes back as `Software`, one of the device as `JadeError`.
    fn derive_xpub(&self, path: &DerivationPath) -> (r: Result<
        ExtendedPubKey,
        SignerError<R::Error>,
    >)
        ensures
            r matches Err(e) ==> (self is Software ==> e is Software) && (self is Jade ==> e
                is JadeError),
    {
        match self {
            AnySigner::Software(s) => match s.derive_xpub(path) {
                Ok(x) => Ok(x),
                Err(e) => Err(SignerError::Software(e)),
            },
            AnySigner::Jade(j) => match j.derive_xpub(path) {
                Ok(x) => Ok(x),
                Err(e) => Err(SignerError::JadeError(e)),
            },
        }
    }

    /// The master blinding key of the backend at hand. The software signer
    /// always has one; a failure of the device comes back as `JadeError`.
    fn slip77_master_blinding_key(&self) -> (r: Result<MasterBlindingKey, SignerError<R::Error>>)
        ensures
            r matches Err(e) ==> e is JadeError,
    {
        match self {
            AnySigner::Software(s) => Ok(s.slip77()),
            AnySigner::Jade(j) => match j.slip77_master_blinding_key() {
                Ok(k) => Ok(k),
                Err(e) => Err(SignerError::JadeError(e)),
            },
        }
    }
}

} // verus!

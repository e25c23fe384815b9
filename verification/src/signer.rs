//! The capability that every signing backend offers.

use vstd::prelude::*;
use crate::keys::{DerivationPath, ExtendedPubKey, MasterBlindingKey};
use crate::pset::{newly_signed, pset_extends, Pset};

verus! {

/// A signing backend: it derives public keys and the master blinding key from
/// a root secret that it holds, and signs with that secret.
///
/// `xpub_at` and `blinding_key` say what the root secret yields. A backend may
/// fail on any call (a device may be unreachable), but what it returns on
/// success is what they say: the same on every call. A backend that does not
/// define them leaves open what its secret yields: they are then some function
/// of the signer, and of the path, of which nothing else is known.
pub trait Signer {
    /// What a failed operation returns.
    type Error;

    /// The extended public key, serialized, that the root secret yields at
    /// `path`; none where no key can be derived there.
    open spec fn xpub_at(&self, path: Seq<u32>) -> Option<Seq<u8>> {
        arbitrary::<spec_fn(&Self, Seq<u32>) -> Option<Seq<u8>>>()(self, path)
    }

    /// The master blinding key that the root secret yields.
    open spec fn blinding_key(&self) -> Seq<u8> {
        arbitrary::<spec_fn(&Self) -> Seq<u8>>()(self)
    }

    /// Whether this backend hands out a key whenever its secret yields one.
    /// True of a signer in memory; a device that may be unreachable, or whose
    /// owner may refuse, does not promise it.
    open spec fn always_answers(&self) -> bool {
        false
    }

    /// Attaches signatures to the inputs that this signer holds a key for and
    /// returns how many inputs gained one. Nothing but signatures is changed,
    /// and a failed call changes nothing.
    fn sign(&self, pset: &mut Pset) -> (r: Result<u32, Self::Error>)
        requires
            old(pset)@.len() <= u32::MAX,
        ensures
            match r {
                Ok(n) => pset_extends(old(pset)@, final(pset)@) && n == newly_signed(
                    old(pset)@,
                    final(pset)@,
                ),
                Err(_) => final(pset)@ == old(pset)@,
            },
    ;

    /// The extended public key at `path`.
    fn derive_xpub(&self, path: &DerivationPath) -> (r: Result<ExtendedPubKey, Self::Error>)
        ensures
            r matches Ok(x) ==> self.xpub_at(path@) == Some(x@),
            self.always_answers() ==> (r is Ok <==> self.xpub_at(path@) is Some),
    ;

    /// The master blinding key.
    fn slip77_master_blinding_key(&self) -> (r: Result<MasterBlindingKey, Self::Error>)
        ensures
            r matches Ok(k) ==> k@ == self.blinding_key(),
            self.always_answers() ==> r is Ok,
    ;
}

} // verus!

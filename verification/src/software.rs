//! The signer that holds its root secret in memory.

use vstd::prelude::*;
use crate::bip32::{bip32_master_key, bip32_neuter, slip77_master_key};
use crate::equal::{bytes_copy, bytes_eq};
use crate::keys::{
    fingerprint_of, private_key_at, public_key_at, public_key_of, signature_of, DerivationPath,
    ExtendedPrivKey, ExtendedPubKey, Fingerprint, MasterBlindingKey,
};
use crate::pset::{
    count_gained, find_signature, has_signature, lemma_count_gained_bound, newly_signed,
    pset_extends, sigs_view, well_formed, well_formed_input, with_signatures, KeyOriginView,
    PartialSig, PartialSigView, Pset, PsetInput, PsetInputView,
};
use crate::signer::Signer;

verus! {

/// Why a software signer could not be made.
#[derive(Debug)]
pub enum NewError {
    /// The seed gives no master key.
    Bip32(elements::bitcoin::bip32::Error),
}

/// Why a software signer could not sign or derive.
#[derive(Debug)]
pub enum SignError {
    /// The input at this index has a digest that is not 32 bytes long.
    MalformedInput(usize),
    /// A key could not be derived.
    Bip32(elements::bitcoin::bip32::Error),
}

/// The fingerprint of the root key `root`.
pub open spec fn root_fingerprint(root: Seq<u8>) -> Seq<u8> {
    fingerprint_of(bip32_neuter(root))
}

/// Whether an origin names the root key `root`, and the key at its path cannot be derived.
pub open spec fn origin_fails(root: Seq<u8>, origin: KeyOriginView) -> bool {
    origin.fingerprint == root_fingerprint(root) && private_key_at(root, origin.path) is None
}

/// The private key that signs for an origin: the key at its path from `root`,
/// where the origin names `root` and that key's public key is the origin's.
pub open spec fn signing_key(root: Seq<u8>, origin: KeyOriginView) -> Option<Seq<u8>> {
    if origin.fingerprint == root_fingerprint(root) {
        match private_key_at(root, origin.path) {
            Some(key) => if public_key_of(bip32_neuter(key)) == origin.public_key {
                Some(key)
            } else {
                None
            },
            None => None,
        }
    } else {
        None
    }
}

/// The signatures that the first `n` origins of `input` add, in order: one for
/// each origin that `root` signs for and whose public key has no signature yet.
pub open spec fn additions_after(root: Seq<u8>, input: PsetInputView, n: nat) -> Seq<
    PartialSigView,
>
    decreases n,
{
    if n == 0 {
        Seq::empty()
    } else {
        let earlier = additions_after(root, input, (n - 1) as nat);
        let origin = input.bip32_derivation[n - 1];
        match signing_key(root, origin) {
            Some(key) => if has_signature(input.partial_sigs + earlier, origin.public_key) {
                earlier
            } else {
                earlier.push(
                    PartialSigView {
                        public_key: origin.public_key,
                        signature: signature_of(input.sighash, key),
                    },
                )
            },
            None => earlier,
        }
    }
}

/// The signatures that signing with `root` adds to `input`.
pub open spec fn additions(root: Seq<u8>, input: PsetInputView) -> Seq<PartialSigView> {
    additions_after(root, input, input.bip32_derivation.len())
}

/// `input` after signing with `root`.
pub open spec fn signed_input(root: Seq<u8>, input: PsetInputView) -> PsetInputView {
    with_signatures(input, additions(root, input))
}

/// The transaction after signing with `root`.
pub open spec fn signed(root: Seq<u8>, pset: Seq<PsetInputView>) -> Seq<PsetInputView> {
    pset.map_values(|input: PsetInputView| signed_input(root, input))
}

/// Whether some origin of `input` names `root` with a path that cannot be derived.
pub open spec fn input_fails(root: Seq<u8>, input: PsetInputView) -> bool {
    exists|j: int|
        0 <= j < input.bip32_derivation.len() && origin_fails(
            root,
            #[trigger] input.bip32_derivation[j],
        )
}

/// Whether some origin of some input names `root` with a path that cannot be derived.
pub open spec fn derivation_fails(root: Seq<u8>, pset: Seq<PsetInputView>) -> bool {
    exists|i: int| 0 <= i < pset.len() && input_fails(root, #[trigger] pset[i])
}

/// A signer whose root secret is a seed held in memory.
pub struct SwSigner {
    seed: Vec<u8>,
    xprv: ExtendedPrivKey,
}

impl SwSigner {
    /// The seed.
    pub closed spec fn seed(&self) -> Seq<u8> {
        self.seed@
    }

    /// The master key of the seed, serialized.
    pub closed spec fn root(&self) -> Seq<u8> {
        self.xprv@
    }

    /// A signer for `seed`, with keys for the main network or for a test network.
    pub fn new(seed: &[u8], mainnet: bool) -> (r: Result<SwSigner, NewError>)
        ensures
            r is Ok <==> bip32_master_key(mainnet, seed@) is Some,
            r matches Ok(s) ==> s.seed() == seed@ && bip32_master_key(mainnet, seed@) == Some(
                s.root(),
            ),
    {
        match ExtendedPrivKey::new_master(mainnet, seed) {
            Ok(xprv) => Ok(SwSigner { seed: bytes_copy(seed), xprv }),
            Err(e) => Err(NewError::Bip32(e)),
        }
    }

    /// The extended public key of the root.
    pub fn xpub(&self) -> (r: ExtendedPubKey)
        ensures
            r@ == bip32_neuter(self.root()),
    {
        self.xprv.to_xpub()
    }

    /// The fingerprint of the root.
    pub fn fingerprint(&self) -> (r: Fingerprint)
        ensures
            r@ == root_fingerprint(self.root()),
    {
        self.xprv.to_xpub().fingerprint()
    }

    /// The master blinding key of the seed.
    pub fn slip77(&self) -> (r: MasterBlindingKey)
        ensures
            r@ == slip77_master_key(self.seed()),
    {
        MasterBlindingKey::from_seed(self.seed.as_slice())
    }

    /// The signatures to add to `input`, or the error of the first origin that
    /// names this signer with a path that cannot be derived.
    fn input_additions(&self, fingerprint: &Fingerprint, input: &PsetInput) -> (r: Result<
        Vec<PartialSig>,
        elements::bitcoin::bip32::Error,
    >)
        requires
            well_formed_input(input@),
            fingerprint@ == root_fingerprint(self.root()),
        ensures
            r is Ok <==> !input_fails(self.root(), input@),
            r matches Ok(more) ==> sigs_view(more@) == additions(self.root(), input@),
    {
        let mut more: Vec<PartialSig> = Vec::new();
        let mut j: usize = 0;
        assert(sigs_view(more@) =~= additions_after(self.root(), input@, 0));
        while j < input.bip32_derivation.len()
            invariant
                j <= input.bip32_derivation.len(),
                well_formed_input(input@),
                fingerprint@ == root_fingerprint(self.root()),
                sigs_view(more@) == additions_after(self.root(), input@, j as nat),
                forall|k: int|
                    0 <= k < j ==> !origin_fails(self.root(), #[trigger] input@.bip32_derivation[k]),
            decreases input.bip32_derivation.len() - j,
        {
            let origin = &input.bip32_derivation[j];
            let ghost earlier = sigs_view(more@);
            assert(input@.bip32_derivation[j as int] == origin@);
            if origin.fingerprint.same_as(fingerprint) {
                match self.xprv.derive_priv(&origin.path) {
                    Err(e) => {
                        assert(origin_fails(self.root(), input@.bip32_derivation[j as int]));
                        return Err(e);
                    },
                    Ok(key) => {
                        let public_key = key.to_xpub().public_key();
                        if bytes_eq(public_key.as_slice(), origin.public_key.as_slice()) {
                            let signed_before = input.has_signature(origin.public_key.as_slice());
                            let signed_now = find_signature(&more, origin.public_key.as_slice());
                            proof {
                                crate::pset::lemma_has_signature_concat(
                                    input@.partial_sigs,
                                    earlier,
                                    origin@.public_key,
                                );
                            }
                            if !signed_before && !signed_now {
                                let signature = key.sign(input.sighash.as_slice());
                                let sig = PartialSig {
                                    public_key: bytes_copy(origin.public_key.as_slice()),
                                    signature,
                                };
                                more.push(sig);
                                assert(sigs_view(more@) =~= earlier.push(sig@));
                            }
                        }
                    },
                }
            }
            j = j + 1;
        }
        proof {
            if input_fails(self.root(), input@) {
                let k = choose|k: int|
                    0 <= k < input@.bip32_derivation.len() && origin_fails(
                        self.root(),
                        #[trigger] input@.bip32_derivation[k],
                    );
                assert(!origin_fails(self.root(), input@.bip32_derivation[k]));
            }
        }
        Ok(more)
    }

    /// Attaches a signature to every input for each of its origins that names
    /// this signer's root and whose public key is the one at its path, unless
    /// the input already has a signature under that key. Returns how many
    /// inputs gained a signature.
    ///
    /// Fails, and changes nothing, where an input's digest is not 32 bytes
    /// long, or where an origin names this signer's root with a path that
    /// cannot be derived.
    pub fn sign_pset(&self, pset: &mut Pset) -> (r: Result<u32, SignError>)
        requires
            old(pset)@.len() <= u32::MAX,
        ensures
            match r {
                Ok(n) => {
                    &&& well_formed(old(pset)@)
                    &&& !derivation_fails(self.root(), old(pset)@)
                    &&& final(pset)@ == signed(self.root(), old(pset)@)
                    &&& n == newly_signed(old(pset)@, final(pset)@)
                },
                Err(SignError::MalformedInput(i)) => {
                    &&& i < old(pset)@.len()
                    &&& !well_formed_input(old(pset)@[i as int])
                    &&& well_formed(old(pset)@.subrange(0, i as int))
                    &&& *final(pset) == *old(pset)
                },
                Err(SignError::Bip32(_)) => {
                    &&& well_formed(old(pset)@)
                    &&& derivation_fails(self.root(), old(pset)@)
                    &&& *final(pset) == *old(pset)
                },
            },
    {
        let ghost before = pset@;
        let ghost root = self.root();
        let ghost after = signed(root, before);
        match pset.first_malformed() {
            Some(i) => {
                return Err(SignError::MalformedInput(i));
            },
            None => {},
        }
        let fingerprint = self.fingerprint();
        let n = pset.inputs.len();
        let mut all: Vec<Vec<PartialSig>> = Vec::new();
        let mut count: u32 = 0;
        let mut i: usize = 0;
        while i < n
            invariant
                i <= n,
                n == pset.inputs.len(),
                n <= u32::MAX,
                pset@ == before,
                *pset == *old(pset),
                root == self.root(),
                after == signed(root, before),
                well_formed(before),
                fingerprint@ == root_fingerprint(root),
                all.len() == i,
                forall|k: int| 0 <= k < i ==> sigs_view((#[trigger] all[k])@) == additions(root, before[k]),
                forall|k: int| 0 <= k < i ==> !input_fails(root, #[trigger] before[k]),
                count == count_gained(before, after, i as nat),
            decreases n - i,
        {
            assert(pset@[i as int] == pset.inputs[i as int]@);
            assert(well_formed_input(before[i as int]));
            match self.input_additions(&fingerprint, &pset.inputs[i]) {
                Ok(more) => {
                    proof {
                        lemma_count_gained_bound(before, after, i as nat);
                        assert(after[i as int] == signed_input(root, before[i as int]));
                    }
                    if more.len() > 0 {
                        count = count + 1;
                    }
                    all.push(more);
                },
                Err(e) => {
                    assert(input_fails(root, before[i as int]));
                    return Err(SignError::Bip32(e));
                },
            }
            i = i + 1;
        }
        proof {
            if derivation_fails(root, before) {
                let k = choose|k: int| 0 <= k < before.len() && input_fails(root, #[trigger] before[k]);
                assert(!input_fails(root, before[k]));
            }
        }
        while i > 0
            invariant
                i <= n,
                n == pset@.len(),
                n == before.len(),
                all.len() == i,
                after == signed(root, before),
                forall|k: int| 0 <= k < i ==> sigs_view((#[trigger] all[k])@) == additions(root, before[k]),
                forall|k: int| 0 <= k < i ==> pset@[k] == before[k],
                forall|k: int| i <= k < n ==> pset@[k] == after[k],
            decreases i,
        {
            let mut more = all.pop().unwrap();
            i = i - 1;
            pset.attach(i, &mut more);
        }
        assert(pset@ =~= after);
        Ok(count)
    }

    /// The extended public key at `path`.
    pub fn derive_xpub(&self, path: &DerivationPath) -> (r: Result<ExtendedPubKey, SignError>)
        ensures
            r is Ok <==> public_key_at(self.root(), path@) is Some,
            r matches Ok(x) ==> public_key_at(self.root(), path@) == Some(x@),
            r matches Err(e) ==> e is Bip32,
    {
        match self.xprv.derive_priv(path) {
            Ok(key) => Ok(key.to_xpub()),
            Err(e) => Err(SignError::Bip32(e)),
        }
    }
}

/// Signing attaches signatures and changes nothing else.
pub proof fn lemma_signed_extends(root: Seq<u8>, pset: Seq<PsetInputView>)
    ensures
        pset_extends(pset, signed(root, pset)),
{
    let after = signed(root, pset);
    assert forall|i: int| 0 <= i < pset.len() implies crate::pset::input_extends(
        pset[i],
        #[trigger] after[i],
    ) by {
        assert(pset[i].partial_sigs.is_prefix_of(pset[i].partial_sigs + additions(root, pset[i])));
    }
}

impl Signer for SwSigner {
    type Error = SignError;

    open spec fn xpub_at(&self, path: Seq<u32>) -> Option<Seq<u8>> {
        public_key_at(self.root(), path)
    }

    open spec fn blinding_key(&self) -> Seq<u8> {
        slip77_master_key(self.seed())
    }

    open spec fn always_answers(&self) -> bool {
        true
    }

    fn sign(&self, pset: &mut Pset) -> (r: Result<u32, SignError>)
        ensures
            r is Ok <==> well_formed(old(pset)@) && !derivation_fails(self.root(), old(pset)@),
            r is Ok ==> final(pset)@ == signed(self.root(), old(pset)@),
    {
        proof {
            lemma_signed_extends(self.root(), pset@);
        }
        self.sign_pset(pset)
    }

    fn derive_xpub(&self, path: &DerivationPath) -> (r: Result<ExtendedPubKey, SignError>)
        ensures
            r matches Err(e) ==> e is Bip32,
    {
        SwSigner::derive_xpub(self, path)
    }

    fn slip77_master_blinding_key(&self) -> (r: Result<MasterBlindingKey, SignError>) {
        Ok(self.slip77())
    }
}

} // verus!

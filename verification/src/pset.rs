//! What a signer reads and writes of a partially signed transaction.
//!
//! For each input: the 32-byte digest that a signature commits to, the keys
//! that may sign it with their origin (the fingerprint of a root key and the
//! path from it), and the signatures attached so far, each under its public
//! key. The rest of a transaction (amounts, scripts, proofs) is not held here:
//! whoever builds a `Pset` from a transaction computes the digests.

use vstd::prelude::*;
use crate::equal::bytes_eq;
use crate::keys::{DerivationPath, Fingerprint};

verus! {

/// Length of the digest that a signature commits to.
pub const DIGEST_LEN: usize = 32;

/// A public key that may sign an input, and where it comes from.
#[derive(Clone, Debug, PartialEq, Eq)]
pub struct KeyOrigin {
    /// The serialized public key.
    pub public_key: Vec<u8>,
    /// Fingerprint of the root key that it is derived from.
    pub fingerprint: Fingerprint,
    /// Path from that root key.
    pub path: DerivationPath,
}

/// `KeyOrigin` as mathematical values.
#[verifier::ext_equal]
pub struct KeyOriginView {
    pub public_key: Seq<u8>,
    pub fingerprint: Seq<u8>,
    pub path: Seq<u32>,
}

impl View for KeyOrigin {
    type V = KeyOriginView;

    open spec fn view(&self) -> KeyOriginView {
        KeyOriginView {
            public_key: self.public_key@,
            fingerprint: self.fingerprint@,
            path: self.path@,
        }
    }
}

/// A signature attached to an input, under the public key that it verifies against.
#[derive(Clone, Debug, PartialEq, Eq)]
pub struct PartialSig {
    /// The serialized public key.
    pub public_key: Vec<u8>,
    /// The signature with its signature-hash flag.
    pub signature: Vec<u8>,
}

/// `PartialSig` as mathematical values.
#[verifier::ext_equal]
pub struct PartialSigView {
    pub public_key: Seq<u8>,
    pub signature: Seq<u8>,
}

impl View for PartialSig {
    type V = PartialSigView;

    open spec fn view(&self) -> PartialSigView {
        PartialSigView { public_key: self.public_key@, signature: self.signature@ }
    }
}

/// One input of a partially signed transaction.
#[derive(Clone, Debug, PartialEq, Eq)]
pub struct PsetInput {
    /// The digest to sign, computed for a signature that commits to all
    /// inputs and outputs; well formed if it has 32 bytes.
    pub sighash: Vec<u8>,
    /// The keys that may sign, in the order in which a signer tries them.
    pub bip32_derivation: Vec<KeyOrigin>,
    /// The signatures attached so far, oldest first.
    pub partial_sigs: Vec<PartialSig>,
}

/// `PsetInput` as mathematical values.
#[verifier::ext_equal]
pub struct PsetInputView {
    pub sighash: Seq<u8>,
    pub bip32_derivation: Seq<KeyOriginView>,
    pub partial_sigs: Seq<PartialSigView>,
}

/// The origins of a vector of `KeyOrigin`.
pub open spec fn origins_view(origins: Seq<KeyOrigin>) -> Seq<KeyOriginView> {
    origins.map_values(|o: KeyOrigin| o@)
}

/// The signatures of a vector of `PartialSig`.
pub open spec fn sigs_view(sigs: Seq<PartialSig>) -> Seq<PartialSigView> {
    sigs.map_values(|s: PartialSig| s@)
}

impl View for PsetInput {
    type V = PsetInputView;

    open spec fn view(&self) -> PsetInputView {
        PsetInputView {
            sighash: self.sighash@,
            bip32_derivation: origins_view(self.bip32_derivation@),
            partial_sigs: sigs_view(self.partial_sigs@),
        }
    }
}

/// A partially signed transaction, as far as a signer is concerned.
#[derive(Clone, Debug, PartialEq, Eq)]
pub struct Pset {
    /// The inputs, in transaction order.
    pub inputs: Vec<PsetInput>,
}

impl View for Pset {
    type V = Seq<PsetInputView>;

    open spec fn view(&self) -> Seq<PsetInputView> {
        self.inputs@.map_values(|i: PsetInput| i@)
    }
}

/// Whether a signature under `public_key` is among `sigs`.
pub open spec fn has_signature(sigs: Seq<PartialSigView>, public_key: Seq<u8>) -> bool {
    exists|i: int| 0 <= i < sigs.len() && (#[trigger] sigs[i]).public_key == public_key
}

/// Whether no two of `sigs` stand under the same public key.
pub open spec fn distinct_keys(sigs: Seq<PartialSigView>) -> bool {
    forall|i: int, j: int|
        0 <= i < j < sigs.len() ==> (#[trigger] sigs[i]).public_key != (#[trigger] sigs[j]).public_key
}

/// Whether an input's digest has the length that signing needs.
pub open spec fn well_formed_input(input: PsetInputView) -> bool {
    input.sighash.len() == DIGEST_LEN
}

/// Whether every input is well formed.
pub open spec fn well_formed(pset: Seq<PsetInputView>) -> bool {
    forall|i: int| 0 <= i < pset.len() ==> well_formed_input(#[trigger] pset[i])
}

/// `input` with `more` attached after its signatures.
pub open spec fn with_signatures(input: PsetInputView, more: Seq<PartialSigView>) -> PsetInputView {
    PsetInputView {
        sighash: input.sighash,
        bip32_derivation: input.bip32_derivation,
        partial_sigs: input.partial_sigs + more,
    }
}

/// Whether `after` is `before` with signatures attached and nothing else changed.
pub open spec fn input_extends(before: PsetInputView, after: PsetInputView) -> bool {
    &&& after.sighash == before.sighash
    &&& after.bip32_derivation == before.bip32_derivation
    &&& before.partial_sigs.is_prefix_of(after.partial_sigs)
}

/// Whether `after` is `before` with signatures attached to some inputs and
/// nothing else changed.
pub open spec fn pset_extends(before: Seq<PsetInputView>, after: Seq<PsetInputView>) -> bool {
    &&& after.len() == before.len()
    &&& forall|i: int| 0 <= i < before.len() ==> input_extends(before[i], #[trigger] after[i])
}

/// Whether an input has more signatures after than before.
pub open spec fn gained(before: PsetInputView, after: PsetInputView) -> bool {
    after.partial_sigs.len() > before.partial_sigs.len()
}

/// How many of the first `n` inputs gained a signature.
pub open spec fn count_gained(
    before: Seq<PsetInputView>,
    after: Seq<PsetInputView>,
    n: nat,
) -> nat
    decreases n,
{
    if n == 0 {
        0
    } else {
        count_gained(before, after, (n - 1) as nat) + if gained(before[n - 1], after[n - 1]) {
            1nat
        } else {
            0nat
        }
    }
}

/// How many inputs gained a signature.
pub open spec fn newly_signed(before: Seq<PsetInputView>, after: Seq<PsetInputView>) -> nat {
    count_gained(before, after, before.len())
}

/// At most `n` of the first `n` inputs gained a signature.
pub proof fn lemma_count_gained_bound(
    before: Seq<PsetInputView>,
    after: Seq<PsetInputView>,
    n: nat,
)
    ensures
        count_gained(before, after, n) <= n,
    decreases n,
{
    if n > 0 {
        lemma_count_gained_bound(before, after, (n - 1) as nat);
    }
}

/// A signature under a key is in a list put together from two iff it is in one of them.
pub proof fn lemma_has_signature_concat(
    a: Seq<PartialSigView>,
    b: Seq<PartialSigView>,
    public_key: Seq<u8>,
)
    ensures
        has_signature(a + b, public_key) == (has_signature(a, public_key) || has_signature(
            b,
            public_key,
        )),
{
    if has_signature(a + b, public_key) {
        let i = choose|i: int| 0 <= i < (a + b).len() && (#[trigger] (a + b)[i]).public_key == public_key;
        if i < a.len() {
            assert(a[i].public_key == public_key);
        } else {
            assert(b[i - a.len()].public_key == public_key);
        }
    }
    if has_signature(a, public_key) {
        let i = choose|i: int| 0 <= i < a.len() && (#[trigger] a[i]).public_key == public_key;
        assert((a + b)[i].public_key == public_key);
    }
    if has_signature(b, public_key) {
        let i = choose|i: int| 0 <= i < b.len() && (#[trigger] b[i]).public_key == public_key;
        assert((a + b)[i + a.len()].public_key == public_key);
    }
}

/// Whether a signature under `public_key` is among `sigs`.
pub fn find_signature(sigs: &Vec<PartialSig>, public_key: &[u8]) -> (r: bool)
    ensures
        r == has_signature(sigs_view(sigs@), public_key@),
{
    let mut i: usize = 0;
    while i < sigs.len()
        invariant
            i <= sigs.len(),
            forall|k: int| 0 <= k < i ==> (#[trigger] sigs_view(sigs@)[k]).public_key != public_key@,
        decreases sigs.len() - i,
    {
        if bytes_eq(sigs[i].public_key.as_slice(), public_key) {
            assert(sigs_view(sigs@)[i as int].public_key == public_key@);
            return true;
        }
        i = i + 1;
    }
    false
}

impl PsetInput {
    /// Whether the input carries a signature under `public_key`.
    pub fn has_signature(&self, public_key: &[u8]) -> (r: bool)
        ensures
            r == has_signature(self@.partial_sigs, public_key@),
    {
        find_signature(&self.partial_sigs, public_key)
    }
}

impl Pset {
    /// Number of inputs.
    pub fn len(&self) -> (r: usize)
        ensures
            r == self@.len(),
    {
        self.inputs.len()
    }

    /// The index of the first input whose digest does not have 32 bytes.
    pub fn first_malformed(&self) -> (r: Option<usize>)
        ensures
            r is None <==> well_formed(self@),
            r matches Some(i) ==> i < self@.len() && !well_formed_input(self@[i as int])
                && well_formed(self@.subrange(0, i as int)),
    {
        let mut i: usize = 0;
        while i < self.inputs.len()
            invariant
                i <= self.inputs.len(),
                well_formed(self@.subrange(0, i as int)),
            decreases self.inputs.len() - i,
        {
            if self.inputs[i].sighash.len() != DIGEST_LEN {
                assert(!well_formed_input(self@[i as int]));
                return Some(i);
            }
            assert forall|k: int| 0 <= k < i + 1 implies well_formed_input(
                #[trigger] self@.subrange(0, i as int + 1)[k],
            ) by {
                if k < i {
                    assert(self@.subrange(0, i as int)[k] == self@.subrange(0, i as int + 1)[k]);
                }
            }
            i = i + 1;
        }
        assert(self@.subrange(0, i as int) =~= self@);
        None
    }

    /// Moves `more` to the end of the signatures of input `i`.
    pub fn attach(&mut self, i: usize, more: &mut Vec<PartialSig>)
        requires
            i < old(self)@.len(),
        ensures
            final(self)@ == old(self)@.update(
                i as int,
                with_signatures(old(self)@[i as int], sigs_view(old(more)@)),
            ),
            final(more)@.len() == 0,
    {
        let ghost before = self.inputs@;
        self.inputs[i].partial_sigs.append(more);
        proof {
            let after = self.inputs@;
            assert(after.len() == before.len());
            assert(sigs_view(after[i as int].partial_sigs@) =~= sigs_view(
                before[i as int].partial_sigs@,
            ) + sigs_view(old(more)@));
            assert(self@ =~= old(self)@.update(
                i as int,
                with_signatures(old(self)@[i as int], sigs_view(old(more)@)),
            ));
        }
    }
}

} // verus!

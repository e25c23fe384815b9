//! What holds of the signers and of the descriptor, beyond the contract of any
//! single function.

use vstd::prelude::*;
use crate::descriptor::{blinding_text, descriptor_text, DescriptorBlindingKey, Singlesig};
use crate::dispatch::AnySigner;
use crate::hex::hex_text;
use crate::keys::{fingerprint_of, Fingerprint};
use crate::pset::{
    count_gained, distinct_keys, has_signature, newly_signed, well_formed, well_formed_input,
    PartialSigView, PsetInputView,
};
use crate::signer::Signer;
use crate::software::{
    additions_after, derivation_fails, input_fails, signed, signed_input, signing_key, SwSigner,
};

verus! {

/// Derivation is a function of the root secret and the path: two software
/// signers with the same root have the same key at every path, or both have
/// none, and the dispatcher answers as the signer that it holds.
pub proof fn law_derivation_is_deterministic<R: Signer>(
    first: SwSigner,
    second: SwSigner,
    device: R,
    path: Seq<u32>,
)
    requires
        first.root() == second.root(),
    ensures
        first.xpub_at(path) == second.xpub_at(path),
        AnySigner::<R>::Software(first).xpub_at(path) == second.xpub_at(path),
        AnySigner::<R>::Jade(device).xpub_at(path) == device.xpub_at(path),
{
}

/// The master blinding key is a function of the seed.
pub proof fn law_blinding_key_is_deterministic<R: Signer>(first: SwSigner, second: SwSigner)
    requires
        first.seed() == second.seed(),
    ensures
        first.blinding_key() == second.blinding_key(),
        AnySigner::<R>::Software(first).blinding_key() == second.blinding_key(),
{
}

/// Where the fingerprint starts in a descriptor: behind `ct(`, the blinding
/// key, the comma, the prefix of the script shape and `([`.
pub open spec fn fingerprint_offset(
    script: Singlesig,
    blinding: DescriptorBlindingKey,
    blinding_key: Seq<u8>,
) -> nat {
    "ct("@.len() + blinding_text(blinding, blinding_key).len() + ","@.len() + script.prefix().len()
        + "(["@.len()
}

/// The eight characters of a descriptor that hold the fingerprint.
pub open spec fn embedded_fingerprint(
    descriptor: Seq<char>,
    script: Singlesig,
    blinding: DescriptorBlindingKey,
    blinding_key: Seq<u8>,
) -> Seq<char> {
    let start = fingerprint_offset(script, blinding, blinding_key) as int;
    descriptor.subrange(start, start + 8)
}

/// The fingerprint of a signer's root key, written in hexadecimal, is the
/// fingerprint inside every descriptor of that signer, whatever the script
/// shape, the blinding variant and the account key.
pub proof fn law_fingerprint_is_embedded<S: Signer>(
    signer: S,
    fingerprint: Fingerprint,
    script: Singlesig,
    blinding: DescriptorBlindingKey,
    master: Seq<u8>,
    account: Seq<u8>,
)
    requires
        signer.xpub_at(Seq::empty()) == Some(master),
        fingerprint@ == fingerprint_of(master),
    ensures
        embedded_fingerprint(
            descriptor_text(script, blinding, signer.blinding_key(), master, account),
            script,
            blinding,
            signer.blinding_key(),
        ) == hex_text(fingerprint@),
{
    let key = signer.blinding_key();
    let head = "ct("@ + blinding_text(blinding, key) + ","@ + script.prefix() + "(["@;
    let field = hex_text(fingerprint@);
    let tail = "/"@ + script.path() + "]"@ + crate::bip32::bip32_xpub_text(account) + "/<0;1>/*)"@
        + script.suffix() + ")"@;
    let text = descriptor_text(script, blinding, key, master, account);
    assert(fingerprint@.len() == 4);
    assert(field.len() == 8);
    assert(head.len() == fingerprint_offset(script, blinding, key));
    assert(text =~= head + field + tail);
    assert((head + field + tail).subrange(head.len() as int, head.len() as int + 8) =~= field);
}

/// What signing adds after `m` origins is still there after `n`.
proof fn lemma_additions_grow(root: Seq<u8>, input: PsetInputView, m: nat, n: nat)
    requires
        m <= n,
    ensures
        additions_after(root, input, m).is_prefix_of(additions_after(root, input, n)),
    decreases n,
{
    if m < n {
        lemma_additions_grow(root, input, m, (n - 1) as nat);
    }
}

/// After the first `n` origins, each of them that the signer signs for has a signature.
proof fn lemma_signed_origins_have_signatures(root: Seq<u8>, input: PsetInputView, n: nat, j: int)
    requires
        0 <= j < n,
        signing_key(root, input.bip32_derivation[j]) is Some,
    ensures
        has_signature(
            input.partial_sigs + additions_after(root, input, n),
            input.bip32_derivation[j].public_key,
        ),
    decreases n,
{
    let key = input.bip32_derivation[j].public_key;
    let earlier = additions_after(root, input, (n - 1) as nat);
    let now = additions_after(root, input, n);
    if j < n - 1 {
        lemma_signed_origins_have_signatures(root, input, (n - 1) as nat, j);
        lemma_additions_grow(root, input, (n - 1) as nat, n);
        let i = choose|i: int|
            0 <= i < (input.partial_sigs + earlier).len() && (#[trigger] (input.partial_sigs
                + earlier)[i]).public_key == key;
        assert((input.partial_sigs + now)[i].public_key == key);
    } else {
        if has_signature(input.partial_sigs + earlier, key) {
            assert(now == earlier);
        } else {
            let last = input.partial_sigs.len() + now.len() - 1;
            assert((input.partial_sigs + now)[last].public_key == key);
        }
    }
}

/// Whether every origin that `root` signs for has a signature on `input`.
pub open spec fn fully_signed(root: Seq<u8>, input: PsetInputView) -> bool {
    forall|j: int|
        0 <= j < input.bip32_derivation.len() && signing_key(
            root,
            #[trigger] input.bip32_derivation[j],
        ) is Some ==> has_signature(input.partial_sigs, input.bip32_derivation[j].public_key)
}

/// Signing adds nothing to an input on which every origin that the signer
/// signs for has a signature.
pub proof fn lemma_nothing_to_add(root: Seq<u8>, input: PsetInputView, n: nat)
    requires
        fully_signed(root, input),
        n <= input.bip32_derivation.len(),
    ensures
        additions_after(root, input, n) == Seq::<PartialSigView>::empty(),
    decreases n,
{
    if n > 0 {
        lemma_nothing_to_add(root, input, (n - 1) as nat);
        let origin = input.bip32_derivation[n - 1];
        assert(input.partial_sigs + Seq::<PartialSigView>::empty() =~= input.partial_sigs);
    }
}

/// A signed input is fully signed.
pub proof fn lemma_signed_input_is_fully_signed(root: Seq<u8>, input: PsetInputView)
    ensures
        fully_signed(root, signed_input(root, input)),
{
    let after = signed_input(root, input);
    assert forall|j: int|
        0 <= j < after.bip32_derivation.len() && signing_key(
            root,
            #[trigger] after.bip32_derivation[j],
        ) is Some implies has_signature(after.partial_sigs, after.bip32_derivation[j].public_key) by {
        lemma_signed_origins_have_signatures(root, input, input.bip32_derivation.len(), j);
    }
}

/// No input gains a signature where nothing changes.
proof fn lemma_nothing_gained(pset: Seq<PsetInputView>, n: nat)
    ensures
        count_gained(pset, pset, n) == 0,
    decreases n,
{
    if n > 0 {
        lemma_nothing_gained(pset, (n - 1) as nat);
    }
}

/// Signing a transaction on which every input is fully signed returns zero
/// and leaves it as it is.
pub proof fn law_signing_fully_signed_changes_nothing(root: Seq<u8>, pset: Seq<PsetInputView>)
    requires
        forall|i: int| 0 <= i < pset.len() ==> fully_signed(root, #[trigger] pset[i]),
    ensures
        signed(root, pset) == pset,
        newly_signed(pset, signed(root, pset)) == 0,
{
    assert forall|i: int| 0 <= i < pset.len() implies #[trigger] signed(root, pset)[i]
        == pset[i] by {
        lemma_nothing_to_add(root, pset[i], pset[i].bip32_derivation.len());
        assert(pset[i].partial_sigs + Seq::<PartialSigView>::empty() =~= pset[i].partial_sigs);
        assert(signed_input(root, pset[i]) =~= pset[i]);
    }
    assert(signed(root, pset) =~= pset);
    lemma_nothing_gained(pset, pset.len());
}

/// Signing twice is signing once: after a first signing, a second one
/// succeeds where the first did, returns zero and changes nothing.
pub proof fn law_signing_is_idempotent(root: Seq<u8>, pset: Seq<PsetInputView>)
    ensures
        well_formed(signed(root, pset)) == well_formed(pset),
        derivation_fails(root, signed(root, pset)) == derivation_fails(root, pset),
        signed(root, signed(root, pset)) == signed(root, pset),
        newly_signed(signed(root, pset), signed(root, signed(root, pset))) == 0,
{
    let once = signed(root, pset);
    assert forall|i: int| 0 <= i < once.len() implies fully_signed(root, #[trigger] once[i]) by {
        lemma_signed_input_is_fully_signed(root, pset[i]);
    }
    law_signing_fully_signed_changes_nothing(root, once);
    if well_formed(pset) {
        assert forall|i: int| 0 <= i < once.len() implies well_formed_input(
            #[trigger] once[i],
        ) by {
            assert(well_formed_input(pset[i]));
        }
    }
    if well_formed(once) {
        assert forall|i: int| 0 <= i < pset.len() implies well_formed_input(
            #[trigger] pset[i],
        ) by {
            assert(well_formed_input(once[i]));
        }
    }
    if derivation_fails(root, pset) {
        let i = choose|i: int| 0 <= i < pset.len() && input_fails(root, #[trigger] pset[i]);
        assert(once[i].bip32_derivation == pset[i].bip32_derivation);
        assert(input_fails(root, once[i]));
    }
    if derivation_fails(root, once) {
        let i = choose|i: int| 0 <= i < once.len() && input_fails(root, #[trigger] once[i]);
        assert(once[i].bip32_derivation == pset[i].bip32_derivation);
        assert(input_fails(root, pset[i]));
    }
}

/// After any number of origins, the signatures of an input still stand under
/// distinct public keys if they did before.
proof fn lemma_additions_keep_keys_distinct(root: Seq<u8>, input: PsetInputView, n: nat)
    requires
        distinct_keys(input.partial_sigs),
    ensures
        distinct_keys(input.partial_sigs + additions_after(root, input, n)),
    decreases n,
{
    if n == 0 {
        assert(input.partial_sigs + additions_after(root, input, 0) =~= input.partial_sigs);
    } else {
        lemma_additions_keep_keys_distinct(root, input, (n - 1) as nat);
        let earlier = input.partial_sigs + additions_after(root, input, (n - 1) as nat);
        let now = input.partial_sigs + additions_after(root, input, n);
        if now != earlier {
            let key = input.bip32_derivation[n - 1].public_key;
            assert(!has_signature(earlier, key));
            assert(now.len() == earlier.len() + 1);
            assert forall|i: int, j: int| 0 <= i < j < now.len() implies (#[trigger] now[i]).public_key
                != (#[trigger] now[j]).public_key by {
                assert(now[i] == earlier[i]);
                if j < earlier.len() {
                    assert(now[j] == earlier[j]);
                } else {
                    assert(now[j].public_key == key);
                }
            }
        }
    }
}

/// Signing never puts a second signature under a public key: an input whose
/// signatures stand under distinct keys keeps that after signing.
pub proof fn law_signing_keeps_keys_distinct(root: Seq<u8>, input: PsetInputView)
    requires
        distinct_keys(input.partial_sigs),
    ensures
        distinct_keys(signed_input(root, input).partial_sigs),
{
    lemma_additions_keep_keys_distinct(root, input, input.bip32_derivation.len());
}

} // verus!

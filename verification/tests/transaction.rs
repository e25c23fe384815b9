use elements::bitcoin::bip32::{ChildNumber, Xpub};
use elements::bitcoin::secp256k1::Secp256k1;
use elements::bitcoin::PublicKey;
use elements::pset::{Input, Output, PartiallySignedTransaction};
use elements::sighash::SighashCache;
use elements::{confidential, AssetId, BlockHash, OutPoint, Script, TxOut, TxOutWitness, Txid};
use elements_miniscript::psbt::PsbtExt;
use elements_miniscript::{ConfidentialDescriptor, DescriptorPublicKey};
use signer::{
    singlesig_desc, DerivationPath, DescriptorBlindingKey, Fingerprint, KeyOrigin, PartialSig,
    Pset, PsetInput, Singlesig, SwSigner,
};

const WALLET_SEED: &str = "5eb00bbddcf069084889a8ab9155568165f5c453ccb85e70811aaed6f6da5fc19a5ac40b389cd370d086206dec8aa6c43daea6690f20ad3d8d48b2d2ce9e38e4";

fn wallet() -> SwSigner {
    let seed: Vec<u8> = (0..WALLET_SEED.len() / 2)
        .map(|i| u8::from_str_radix(&WALLET_SEED[2 * i..2 * i + 2], 16).unwrap())
        .collect();
    SwSigner::new(&seed, false).unwrap()
}

/// What a signer reads of a transaction of `elements`.
fn model_of(pset: &PartiallySignedTransaction) -> Pset {
    let tx = pset.extract_tx().unwrap();
    let mut cache = SighashCache::new(&tx);
    let mut inputs = Vec::new();
    for (i, input) in pset.inputs().iter().enumerate() {
        let digest = pset
            .sighash_msg(i, &mut cache, None, BlockHash::GENESIS_PREVIOUS_BLOCK_HASH)
            .unwrap()
            .to_secp_msg();
        let digest: &[u8; 32] = digest.as_ref();
        inputs.push(PsetInput {
            sighash: digest.to_vec(),
            bip32_derivation: input
                .bip32_derivation
                .iter()
                .map(|(key, (fingerprint, path))| KeyOrigin {
                    public_key: key.to_bytes(),
                    fingerprint: Fingerprint(fingerprint.to_bytes()),
                    path: DerivationPath::new(path.to_u32_vec()),
                })
                .collect(),
            partial_sigs: input
                .partial_sigs
                .iter()
                .map(|(key, signature)| PartialSig {
                    public_key: key.to_bytes(),
                    signature: signature.clone(),
                })
                .collect(),
        });
    }
    Pset { inputs }
}

/// An unsigned transaction that spends one output of the wallet of `desc`,
/// paid to its receive address of the given index.
fn spend_from(desc: &str, signer: &SwSigner, index: u32) -> PartiallySignedTransaction {
    let parsed = desc.parse::<ConfidentialDescriptor<DescriptorPublicKey>>().unwrap();
    let receive = parsed.descriptor.into_single_descriptors().unwrap().remove(0);
    let script_pubkey = receive.at_derivation_index(index).unwrap().script_pubkey();

    let secp = Secp256k1::new();
    let account = signer.derive_xpub(&DerivationPath::from_str("m/84h/1h/0h").unwrap()).unwrap();
    let steps = [ChildNumber::from(0), ChildNumber::from(index)];
    let key = Xpub::decode(&account.encode()).unwrap().derive_pub(&secp, &steps).unwrap();
    let path = format!("m/84h/1h/0h/0/{}", index).parse().unwrap();
    let fingerprint = signer.fingerprint().0.into();

    let asset = AssetId::LIQUID_BTC;
    let txid: Txid = elements::hashes::Hash::from_byte_array([7u8; 32]);
    let mut input = Input::from_prevout(OutPoint::new(txid, 1));
    input.witness_utxo = Some(TxOut {
        asset: confidential::Asset::Explicit(asset),
        value: confidential::Value::Explicit(10_000),
        nonce: confidential::Nonce::Null,
        script_pubkey,
        witness: TxOutWitness::default(),
    });
    input.bip32_derivation.insert(PublicKey::new(key.public_key), (fingerprint, path));

    let mut pset = PartiallySignedTransaction::new_v2();
    pset.add_input(input);
    pset.add_output(Output::new_explicit(Script::new(), 9_000, asset, None));
    pset.add_output(Output::from_txout(TxOut::new_fee(1_000, asset)));
    pset
}

#[test]
fn transaction_spending_from_the_descriptor_is_signed() {
    let signer = wallet();
    for script in [Singlesig::Wpkh, Singlesig::ShWpkh] {
        let desc = singlesig_desc(&signer, script, DescriptorBlindingKey::Slip77).unwrap();
        let mut pset = spend_from(&desc, &signer, 3);
        if script == Singlesig::ShWpkh {
            let key = *pset.inputs()[0].bip32_derivation.keys().next().unwrap();
            pset.inputs_mut()[0].redeem_script =
                Some(Script::new_v0_wpkh(&key.wpubkey_hash().unwrap()));
        }

        let mut model = model_of(&pset);
        assert_eq!(model.inputs.len(), 1);
        assert!(model.inputs[0].partial_sigs.is_empty());
        assert_eq!(signer.sign_pset(&mut model).unwrap(), 1);
        assert_eq!(signer.sign_pset(&mut model).unwrap(), 0);

        let sig = &model.inputs[0].partial_sigs[0];
        let key = PublicKey::from_slice(&sig.public_key).unwrap();
        assert!(pset.inputs()[0].bip32_derivation.contains_key(&key));
        pset.inputs_mut()[0].partial_sigs.insert(key, sig.signature.clone());
        assert_eq!(model_of(&pset), model);

        let (der, flag) = sig.signature.split_at(sig.signature.len() - 1);
        let parsed = elements::bitcoin::secp256k1::ecdsa::Signature::from_der(der).unwrap();
        assert_eq!(flag, &[1u8]);
        assert_eq!(
            elements_miniscript::elementssig_to_rawsig(&(parsed, elements::EcdsaSighashType::All)),
            sig.signature
        );

        // Finalizing runs the script of the spent output against the signature.
        let secp = Secp256k1::verification_only();
        pset.finalize_mut(&secp, BlockHash::GENESIS_PREVIOUS_BLOCK_HASH).unwrap();
        let tx = pset.extract_tx().unwrap();
        assert_eq!(tx.input[0].witness.script_witness.len(), 2);
        assert_eq!(tx.input[0].witness.script_witness[0], sig.signature);
    }
}

#[test]
fn signature_of_another_wallet_does_not_finalize() {
    let signer = wallet();
    let desc = singlesig_desc(&signer, Singlesig::Wpkh, DescriptorBlindingKey::Slip77).unwrap();
    let mut pset = spend_from(&desc, &signer, 0);
    let mut model = model_of(&pset);
    let stranger = SwSigner::new(&[1u8; 32], false).unwrap();
    assert_eq!(stranger.sign_pset(&mut model).unwrap(), 0);
    assert!(model.inputs[0].partial_sigs.is_empty());
    let secp = Secp256k1::verification_only();
    assert!(pset.finalize_mut(&secp, BlockHash::GENESIS_PREVIOUS_BLOCK_HASH).is_err());
}

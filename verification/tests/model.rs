use signer::descriptor::account_path;
use signer::equal::{bytes_copy, bytes_eq, str_eq};
use signer::pset::find_signature;
use signer::{DerivationPath, Fingerprint, KeyOrigin, PartialSig, Pset, PsetInput, Singlesig, HARDENED};

fn sig(key: u8, body: u8) -> PartialSig {
    PartialSig { public_key: vec![key; 33], signature: vec![body; 4] }
}

fn bare_input(sigs: Vec<PartialSig>) -> PsetInput {
    PsetInput {
        sighash: vec![0; 32],
        bip32_derivation: vec![KeyOrigin {
            public_key: vec![2; 33],
            fingerprint: Fingerprint([1, 2, 3, 4]),
            path: DerivationPath::new(vec![HARDENED, 5]),
        }],
        partial_sigs: sigs,
    }
}

#[test]
fn strings_are_compared_by_their_characters() {
    assert!(str_eq("", ""));
    assert!(str_eq("wpkh", "wpkh"));
    assert!(!str_eq("wpkh", "wpkH"));
    assert!(!str_eq("wpkh", "wpk"));
    assert!(!str_eq("wpk", "wpkh"));
    assert!(str_eq("h\u{e9}", "h\u{e9}"));
}

#[test]
fn bytes_are_compared_by_their_contents() {
    assert!(bytes_eq(&[], &[]));
    assert!(bytes_eq(&[1, 2, 3], &[1, 2, 3]));
    assert!(!bytes_eq(&[1, 2, 3], &[1, 2, 4]));
    assert!(!bytes_eq(&[1, 2, 3], &[0, 2, 3]));
    assert!(!bytes_eq(&[1, 2, 3], &[1, 2]));
    assert!(!bytes_eq(&[1, 2], &[1, 2, 3]));
    assert_eq!(bytes_copy(&[9, 8, 7]), vec![9, 8, 7]);
    assert_eq!(bytes_copy(&[]), Vec::<u8>::new());
}

#[test]
fn signature_is_found_under_its_public_key() {
    let sigs = vec![sig(1, 10), sig(2, 20)];
    assert!(find_signature(&sigs, &[1; 33]));
    assert!(find_signature(&sigs, &[2; 33]));
    assert!(!find_signature(&sigs, &[3; 33]));
    assert!(!find_signature(&sigs, &[1; 32]));
    assert!(!find_signature(&vec![], &[1; 33]));
    let input = bare_input(sigs);
    assert!(input.has_signature(&[2; 33]));
    assert!(!input.has_signature(&[10; 4]));
}

#[test]
fn signatures_are_attached_at_the_end_of_one_input() {
    let mut pset = Pset {
        inputs: vec![bare_input(vec![]), bare_input(vec![sig(1, 10)]), bare_input(vec![])],
    };
    let mut more = vec![sig(2, 20), sig(3, 30)];
    pset.attach(1, &mut more);
    assert!(more.is_empty());
    assert_eq!(
        pset,
        Pset {
            inputs: vec![
                bare_input(vec![]),
                bare_input(vec![sig(1, 10), sig(2, 20), sig(3, 30)]),
                bare_input(vec![]),
            ],
        }
    );
    let mut none = vec![];
    pset.attach(0, &mut none);
    assert_eq!(pset.inputs[0], bare_input(vec![]));
    assert_eq!(pset.len(), 3);
}

#[test]
fn first_malformed_input_is_the_first_with_a_digest_of_another_length() {
    let mut pset = Pset { inputs: vec![bare_input(vec![]), bare_input(vec![]), bare_input(vec![])] };
    assert_eq!(pset.first_malformed(), None);
    pset.inputs[2].sighash = vec![];
    assert_eq!(pset.first_malformed(), Some(2));
    pset.inputs[0].sighash = vec![0; 64];
    assert_eq!(pset.first_malformed(), Some(0));
    assert_eq!(Pset { inputs: vec![] }.first_malformed(), None);
}

#[test]
fn account_path_of_both_script_shapes() {
    for script in [Singlesig::Wpkh, Singlesig::ShWpkh] {
        let path = account_path(script).unwrap();
        assert_eq!(path.to_u32_vec(), vec![84 + HARDENED, 1 + HARDENED, HARDENED]);
        assert_eq!(path.as_slice(), &[84 + HARDENED, 1 + HARDENED, HARDENED]);
    }
}

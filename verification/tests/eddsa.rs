use signature_handles::context::CryptoCtx;
use signature_handles::eddsa::{
    EdDSASignature, EdDSASignatureKeyPair, EdDSASignatureKeyPairBuilder, EdDSASignatureOp,
    EdDSASignaturePublicKey, EdDSASignatureState, EdDSASignatureVerificationState,
};
use signature_handles::error::CryptoError;
use signature_handles::signature::SignatureAlgorithm;
use signature_handles::signature_keypair::KeyPairEncoding;

const SEED: [u8; 32] = [
    0x9d, 0x61, 0xb1, 0x9d, 0xef, 0xfd, 0x5a, 0x60, 0xba, 0x84, 0x4a, 0xf4, 0x92, 0xec, 0x2c, 0xc4,
    0x44, 0x49, 0xc5, 0x69, 0x7b, 0x32, 0x69, 0x19, 0x70, 0x3b, 0xac, 0x03, 0x1c, 0xae, 0x7f, 0x60,
];

const PUBLIC_KEY: [u8; 32] = [
    0xd7, 0x5a, 0x98, 0x01, 0x82, 0xb1, 0x0a, 0xb7, 0xd5, 0x4b, 0xfe, 0xd3, 0xc9, 0x64, 0x07, 0x3a,
    0x0e, 0xe1, 0x72, 0xf3, 0xda, 0xa6, 0x23, 0x25, 0xaf, 0x02, 0x1a, 0x68, 0xf7, 0x07, 0x51, 0x1a,
];

const SIGNATURE_OF_EMPTY: [u8; 64] = [
    0xe5, 0x56, 0x43, 0x00, 0xc3, 0x60, 0xac, 0x72, 0x90, 0x86, 0xe2, 0xcc, 0x80, 0x6e, 0x82, 0x8a,
    0x84, 0x87, 0x7f, 0x1e, 0xb8, 0xe5, 0xd9, 0x74, 0xd8, 0x73, 0xe0, 0x65, 0x22, 0x49, 0x01, 0x55,
    0x5f, 0xb8, 0x82, 0x15, 0x90, 0xa3, 0x3b, 0xac, 0xc6, 0x1e, 0x39, 0x70, 0x1c, 0xf9, 0xb4, 0x6b,
    0xd2, 0x5b, 0xf5, 0xf0, 0x59, 0x5b, 0xbe, 0x24, 0x65, 0x51, 0x41, 0x43, 0x8e, 0x7a, 0x10, 0x0b,
];

fn known_eddsa_pkcs8() -> Vec<u8> {
    let mut document = vec![
        0x30, 0x53, 0x02, 0x01, 0x01, 0x30, 0x05, 0x06, 0x03, 0x2b, 0x65, 0x70, 0x04, 0x22, 0x04,
        0x20,
    ];
    document.extend_from_slice(&SEED);
    document.extend_from_slice(&[0xa1, 0x23, 0x03, 0x21, 0x00]);
    document.extend_from_slice(&PUBLIC_KEY);
    document
}

fn known_eddsa_key_pair() -> EdDSASignatureKeyPair {
    match EdDSASignatureKeyPair::from_pkcs8(SignatureAlgorithm::Ed25519, &known_eddsa_pkcs8()) {
        Ok(kp) => kp,
        Err(e) => panic!("the known document was refused: {:?}", e),
    }
}

fn eddsa_verification_state(raw: &[u8], message: &[u8]) -> EdDSASignatureVerificationState {
    let pk = EdDSASignaturePublicKey::from_raw(SignatureAlgorithm::Ed25519, raw).unwrap();
    let mut state = EdDSASignatureVerificationState::new(pk);
    assert_eq!(state.update(message), Ok(()));
    state
}

#[test]
fn eddsa_op_keeps_its_algorithm() {
    let op = EdDSASignatureOp::new(SignatureAlgorithm::Ed25519);
    assert_eq!(op.alg, SignatureAlgorithm::Ed25519);
}

#[test]
fn eddsa_from_pkcs8_derives_the_known_public_key() {
    let kp = known_eddsa_key_pair();
    assert_eq!(kp.alg(), SignatureAlgorithm::Ed25519);
    assert_eq!(kp.raw_public_key(), &PUBLIC_KEY);
    assert_eq!(kp.as_pkcs8().unwrap(), known_eddsa_pkcs8().as_slice());
}

#[test]
fn eddsa_from_pkcs8_rejects_malformed_bytes() {
    let r = EdDSASignatureKeyPair::from_pkcs8(SignatureAlgorithm::Ed25519, &[1, 2, 3]);
    assert!(matches!(r, Err(CryptoError::InvalidKey)));
    let r = EdDSASignatureKeyPair::from_pkcs8(SignatureAlgorithm::Ed25519, &[]);
    assert!(matches!(r, Err(CryptoError::InvalidKey)));
}

#[test]
fn eddsa_from_pkcs8_rejects_an_inconsistent_public_key() {
    let mut document = known_eddsa_pkcs8();
    let last = document.len() - 1;
    document[last] ^= 1;
    let r = EdDSASignatureKeyPair::from_pkcs8(SignatureAlgorithm::Ed25519, &document);
    assert!(matches!(r, Err(CryptoError::InvalidKey)));
}

#[test]
fn eddsa_from_pkcs8_rejects_a_truncated_document() {
    let document = known_eddsa_pkcs8();
    let r = EdDSASignatureKeyPair::from_pkcs8(
        SignatureAlgorithm::Ed25519,
        &document[..document.len() - 1],
    );
    assert!(matches!(r, Err(CryptoError::InvalidKey)));
}

#[test]
fn eddsa_key_pair_refuses_other_algorithms() {
    let r = EdDSASignatureKeyPair::from_pkcs8(SignatureAlgorithm::ECDSA_P256_SHA256, &known_eddsa_pkcs8());
    assert!(matches!(r, Err(CryptoError::Unsupported)));
    let r = EdDSASignatureKeyPair::generate(SignatureAlgorithm::ECDSA_P384_SHA384);
    assert!(matches!(r, Err(CryptoError::Unsupported)));
    let r = EdDSASignatureKeyPair::from_generated(SignatureAlgorithm::ECDSA_P256_SHA256, None);
    assert!(matches!(r, Err(CryptoError::Unsupported)));
    let r = EdDSASignatureKeyPair::from_generated(
        SignatureAlgorithm::ECDSA_P256_SHA256,
        Some(known_eddsa_pkcs8()),
    );
    assert!(matches!(r, Err(CryptoError::Unsupported)));
}

#[test]
fn eddsa_from_generated_reports_a_failed_random_source() {
    let r = EdDSASignatureKeyPair::from_generated(SignatureAlgorithm::Ed25519, None);
    assert!(matches!(r, Err(CryptoError::RNGFailure)));
}

#[test]
fn eddsa_from_generated_builds_the_pair_of_the_document() {
    let r = EdDSASignatureKeyPair::from_generated(SignatureAlgorithm::Ed25519, Some(known_eddsa_pkcs8()));
    let kp = r.ok().unwrap();
    assert_eq!(kp.raw_public_key(), &PUBLIC_KEY);
    let r = EdDSASignatureKeyPair::from_generated(SignatureAlgorithm::Ed25519, Some(vec![0; 85]));
    assert!(matches!(r, Err(CryptoError::RNGFailure)));
}

#[test]
fn eddsa_generate_gives_distinct_valid_pairs() {
    let a = EdDSASignatureKeyPair::generate(SignatureAlgorithm::Ed25519).ok().unwrap();
    let b = EdDSASignatureKeyPair::generate(SignatureAlgorithm::Ed25519).ok().unwrap();
    assert_eq!(a.raw_public_key().len(), 32);
    assert_eq!(a.as_pkcs8().unwrap().len(), 85);
    assert_ne!(a.raw_public_key(), b.raw_public_key());
    let again = EdDSASignatureKeyPair::from_pkcs8(SignatureAlgorithm::Ed25519, a.as_pkcs8().unwrap())
        .ok()
        .unwrap();
    assert_eq!(again.raw_public_key(), a.raw_public_key());
}

#[test]
fn eddsa_clone_keeps_the_key() {
    let kp = known_eddsa_key_pair();
    let copy = kp.clone();
    drop(kp);
    assert_eq!(copy.raw_public_key(), &PUBLIC_KEY);
    assert_eq!(copy.as_pkcs8().unwrap(), known_eddsa_pkcs8().as_slice());
}

#[test]
fn eddsa_signs_the_empty_message_as_expected() {
    let state = EdDSASignatureState::new(known_eddsa_key_pair());
    let signature = state.sign().unwrap();
    assert_eq!(signature.as_ref(), &SIGNATURE_OF_EMPTY);
    assert_eq!(signature, EdDSASignature::new(SIGNATURE_OF_EMPTY.to_vec()));
    let state = eddsa_verification_state(&PUBLIC_KEY, &[]);
    assert_eq!(state.verify(&signature), Ok(()));
}

#[test]
fn eddsa_signing_is_deterministic_and_repeatable() {
    let mut state = EdDSASignatureState::new(known_eddsa_key_pair());
    assert_eq!(state.update(b"abc"), Ok(()));
    let first = state.sign().unwrap();
    let second = state.sign().unwrap();
    assert_eq!(first, second);
    let mut other = EdDSASignatureState::new(known_eddsa_key_pair());
    assert_eq!(other.update(b"abc"), Ok(()));
    assert_eq!(other.sign().unwrap(), first);
    assert_eq!(state.update(b"d"), Ok(()));
    let third = state.sign().unwrap();
    assert_ne!(third, first);
    assert_eq!(state.input, b"abcd".to_vec());
}

#[test]
fn eddsa_update_in_pieces_equals_update_at_once() {
    let mut pieces = EdDSASignatureState::new(known_eddsa_key_pair());
    assert_eq!(pieces.update(&[1, 2]), Ok(()));
    assert_eq!(pieces.update(&[]), Ok(()));
    assert_eq!(pieces.update(&[3, 4, 5]), Ok(()));
    let mut whole = EdDSASignatureState::new(known_eddsa_key_pair());
    assert_eq!(whole.update(&[1, 2, 3, 4, 5]), Ok(()));
    assert_eq!(pieces.input, whole.input);
    assert_eq!(pieces.sign().unwrap(), whole.sign().unwrap());

    let signature = whole.sign().unwrap();
    let mut verified = eddsa_verification_state(&PUBLIC_KEY, &[1]);
    assert_eq!(verified.update(&[2, 3]), Ok(()));
    assert_eq!(verified.update(&[4, 5]), Ok(()));
    assert_eq!(verified.verify(&signature), Ok(()));
    assert_eq!(eddsa_verification_state(&PUBLIC_KEY, &[1, 2, 3, 4, 5]).verify(&signature), Ok(()));
}

#[test]
fn eddsa_verify_rejects_every_single_bit_flip_of_the_signature() {
    let mut state = EdDSASignatureState::new(known_eddsa_key_pair());
    assert_eq!(state.update(b"message"), Ok(()));
    let signature = state.sign().unwrap();
    let verifier = eddsa_verification_state(&PUBLIC_KEY, b"message");
    assert_eq!(verifier.verify(&signature), Ok(()));
    for byte in 0..signature.0.len() {
        for bit in 0..8 {
            let mut changed = signature.0.clone();
            changed[byte] ^= 1 << bit;
            assert_eq!(
                verifier.verify(&EdDSASignature::new(changed)),
                Err(CryptoError::VerificationFailed)
            );
        }
    }
}

#[test]
fn eddsa_verify_rejects_every_single_bit_flip_of_the_message() {
    let message = b"attack at dawn".to_vec();
    let mut state = EdDSASignatureState::new(known_eddsa_key_pair());
    assert_eq!(state.update(&message), Ok(()));
    let signature = state.sign().unwrap();
    for byte in 0..message.len() {
        for bit in 0..8 {
            let mut changed = message.clone();
            changed[byte] ^= 1 << bit;
            assert_eq!(
                eddsa_verification_state(&PUBLIC_KEY, &changed).verify(&signature),
                Err(CryptoError::VerificationFailed)
            );
        }
    }
}

#[test]
fn eddsa_verify_rejects_another_public_key() {
    let mut state = EdDSASignatureState::new(known_eddsa_key_pair());
    assert_eq!(state.update(b"message"), Ok(()));
    let signature = state.sign().unwrap();
    let other = EdDSASignatureKeyPair::generate(SignatureAlgorithm::Ed25519).ok().unwrap();
    assert_eq!(
        eddsa_verification_state(other.raw_public_key(), b"message").verify(&signature),
        Err(CryptoError::VerificationFailed)
    );
}

#[test]
fn eddsa_verify_rejects_malformed_keys_and_signatures() {
    let signature = EdDSASignature::new(SIGNATURE_OF_EMPTY.to_vec());
    assert_eq!(
        eddsa_verification_state(&[], &[]).verify(&signature),
        Err(CryptoError::VerificationFailed)
    );
    assert_eq!(
        eddsa_verification_state(&PUBLIC_KEY[..31], &[]).verify(&signature),
        Err(CryptoError::VerificationFailed)
    );
    let verifier = eddsa_verification_state(&PUBLIC_KEY, &[]);
    assert_eq!(
        verifier.verify(&EdDSASignature::new(vec![])),
        Err(CryptoError::VerificationFailed)
    );
    assert_eq!(
        verifier.verify(&EdDSASignature::new(SIGNATURE_OF_EMPTY[..63].to_vec())),
        Err(CryptoError::VerificationFailed)
    );
}

#[test]
fn eddsa_verify_refuses_a_key_for_another_algorithm() {
    let pk = EdDSASignaturePublicKey::from_raw(SignatureAlgorithm::ECDSA_P256_SHA256, &PUBLIC_KEY)
        .unwrap();
    assert_eq!(pk.alg, SignatureAlgorithm::ECDSA_P256_SHA256);
    let state = EdDSASignatureVerificationState::new(pk);
    assert_eq!(
        state.verify(&EdDSASignature::new(SIGNATURE_OF_EMPTY.to_vec())),
        Err(CryptoError::Unsupported)
    );
}

#[test]
fn eddsa_public_key_keeps_its_bytes() {
    let pk = EdDSASignaturePublicKey::from_raw(SignatureAlgorithm::Ed25519, &[1, 2, 3]).unwrap();
    assert_eq!(pk.as_raw(), Ok(&[1u8, 2, 3][..]));
    let copy = pk.clone();
    assert_eq!(copy.raw, vec![1, 2, 3]);
    assert_eq!(copy.alg, SignatureAlgorithm::Ed25519);
}

#[test]
fn eddsa_signatures_compare_by_their_bytes() {
    let a = EdDSASignature::new(vec![1, 2, 3]);
    let b = EdDSASignature::new(vec![1, 2, 3]);
    let c = EdDSASignature::new(vec![1, 2, 4]);
    let d = EdDSASignature::new(vec![1, 2]);
    assert!(a == b);
    assert!(a != c);
    assert!(a != d);
    assert!(a.clone() == a);
    assert_eq!(a.as_ref(), &[1, 2, 3]);
}

#[test]
fn eddsa_builder_generate_registers_a_key_pair() {
    let mut ctx = CryptoCtx::new();
    let builder = EdDSASignatureKeyPairBuilder::new(SignatureAlgorithm::Ed25519);
    assert_eq!(builder.alg, SignatureAlgorithm::Ed25519);
    let h = builder.generate(&mut ctx).unwrap();
    assert_eq!(ctx.public_key_of(h).unwrap().len(), 32);
}

#[test]
fn eddsa_builder_import_checks_encoding_then_bytes() {
    let mut ctx = CryptoCtx::new();
    let builder = EdDSASignatureKeyPairBuilder::new(SignatureAlgorithm::Ed25519);
    let document = known_eddsa_pkcs8();
    assert_eq!(
        builder.import(&mut ctx, &document, KeyPairEncoding::Raw),
        Err(CryptoError::Unsupported)
    );
    assert_eq!(
        builder.import(&mut ctx, &document, KeyPairEncoding::DER),
        Err(CryptoError::Unsupported)
    );
    assert_eq!(
        builder.import(&mut ctx, &document, KeyPairEncoding::PEM),
        Err(CryptoError::Unsupported)
    );
    assert_eq!(
        builder.import(&mut ctx, &[0x30, 0x00], KeyPairEncoding::Raw),
        Err(CryptoError::Unsupported)
    );
    assert_eq!(
        builder.import(&mut ctx, &[0x30, 0x00], KeyPairEncoding::PKCS8),
        Err(CryptoError::InvalidKey)
    );
    let h = builder.import(&mut ctx, &document, KeyPairEncoding::PKCS8).unwrap();
    assert_eq!(ctx.public_key_of(h).unwrap(), PUBLIC_KEY.to_vec());
}

#[test]
fn eddsa_builder_for_another_algorithm_is_unsupported() {
    let mut ctx = CryptoCtx::new();
    let builder = EdDSASignatureKeyPairBuilder::new(SignatureAlgorithm::ECDSA_P256_SHA256);
    assert_eq!(builder.generate(&mut ctx), Err(CryptoError::Unsupported));
    assert_eq!(
        builder.import(&mut ctx, &known_eddsa_pkcs8(), KeyPairEncoding::PKCS8),
        Err(CryptoError::Unsupported)
    );
}

use signature_handles::context::CryptoCtx;
use signature_handles::error::CryptoError;
use signature_handles::signature::{
    SignatureAlgorithm, SignatureFamily, SignatureState, SignatureVerificationState,
};
use signature_handles::signature_keypair::KeyPairEncoding;

const ALGORITHMS: [SignatureAlgorithm; 3] = [
    SignatureAlgorithm::Ed25519,
    SignatureAlgorithm::ECDSA_P256_SHA256,
    SignatureAlgorithm::ECDSA_P384_SHA384,
];

fn sign(ctx: &mut CryptoCtx, kp: signature_handles::handles::Handle, message: &[u8]) -> Vec<u8> {
    let state = ctx.open_signing_state(kp).unwrap();
    assert_eq!(ctx.sign_update(state, message), Ok(()));
    let signature = ctx.sign_finalize(state).unwrap();
    assert_eq!(ctx.close_handle(state), Ok(()));
    signature
}

fn verify(
    ctx: &mut CryptoCtx,
    alg: SignatureAlgorithm,
    public_key: &[u8],
    message: &[u8],
    signature: &[u8],
) -> Result<(), CryptoError> {
    let state = ctx.open_verification_state(alg, public_key).unwrap();
    assert_eq!(ctx.verify_update(state, message), Ok(()));
    let verdict = ctx.verify_finalize(state, signature);
    assert_eq!(ctx.close_handle(state), Ok(()));
    verdict
}

#[test]
fn families_of_the_algorithms() {
    assert_eq!(SignatureAlgorithm::Ed25519.family(), SignatureFamily::EdDSA);
    assert_eq!(SignatureAlgorithm::ECDSA_P256_SHA256.family(), SignatureFamily::ECDSA);
    assert_eq!(SignatureAlgorithm::ECDSA_P384_SHA384.family(), SignatureFamily::ECDSA);
}

#[test]
fn end_to_end_with_an_edge_curve_key_pair() {
    let mut ctx = CryptoCtx::new();
    let kp = ctx.build_key_pair(SignatureAlgorithm::Ed25519).unwrap();
    let signature = sign(&mut ctx, kp, &[0x01, 0x02, 0x03]);
    let public_key = ctx.public_key_of(kp).unwrap();
    assert_eq!(
        verify(&mut ctx, SignatureAlgorithm::Ed25519, &public_key, &[0x01, 0x02, 0x03], &signature),
        Ok(())
    );
    assert_eq!(
        verify(&mut ctx, SignatureAlgorithm::Ed25519, &public_key, &[0x01, 0x02, 0x04], &signature),
        Err(CryptoError::VerificationFailed)
    );
}

#[test]
fn export_then_import_gives_the_same_public_key() {
    for alg in ALGORITHMS {
        let mut ctx = CryptoCtx::new();
        let kp = ctx.build_key_pair(alg).unwrap();
        let exported = ctx.export_key_pair(kp).unwrap();
        let again = ctx.import_key_pair(alg, &exported, KeyPairEncoding::PKCS8).unwrap();
        assert_ne!(again, kp);
        assert_eq!(ctx.public_key_of(again), ctx.public_key_of(kp));
        assert_eq!(ctx.export_key_pair(again).unwrap(), exported);
    }
}

#[test]
fn every_signature_verifies_under_the_public_key() {
    let messages: [&[u8]; 3] = [&[], &[0], b"a longer message, fed at once"];
    for alg in ALGORITHMS {
        let mut ctx = CryptoCtx::new();
        let kp = ctx.build_key_pair(alg).unwrap();
        let public_key = ctx.public_key_of(kp).unwrap();
        for message in messages {
            let signature = sign(&mut ctx, kp, message);
            assert_eq!(verify(&mut ctx, alg, &public_key, message, &signature), Ok(()));
        }
    }
}

#[test]
fn edge_curve_signatures_repeat_and_ecdsa_signatures_both_verify() {
    let mut ctx = CryptoCtx::new();
    let kp = ctx.build_key_pair(SignatureAlgorithm::Ed25519).unwrap();
    let first = sign(&mut ctx, kp, b"same");
    let second = sign(&mut ctx, kp, b"same");
    assert_eq!(first, second);
    assert_eq!(first.len(), 64);

    let kp = ctx.build_key_pair(SignatureAlgorithm::ECDSA_P256_SHA256).unwrap();
    let public_key = ctx.public_key_of(kp).unwrap();
    let first = sign(&mut ctx, kp, b"same");
    let second = sign(&mut ctx, kp, b"same");
    let alg = SignatureAlgorithm::ECDSA_P256_SHA256;
    assert_eq!(verify(&mut ctx, alg, &public_key, b"same", &first), Ok(()));
    assert_eq!(verify(&mut ctx, alg, &public_key, b"same", &second), Ok(()));
}

#[test]
fn tampering_gives_verification_failed() {
    for alg in ALGORITHMS {
        let mut ctx = CryptoCtx::new();
        let kp = ctx.build_key_pair(alg).unwrap();
        let other = ctx.build_key_pair(alg).unwrap();
        let public_key = ctx.public_key_of(kp).unwrap();
        let other_key = ctx.public_key_of(other).unwrap();
        let message = b"pay 10".to_vec();
        let signature = sign(&mut ctx, kp, &message);
        assert_eq!(verify(&mut ctx, alg, &public_key, &message, &signature), Ok(()));
        for bit in 0..8 {
            let mut changed = signature.clone();
            changed[3] ^= 1 << bit;
            assert_eq!(
                verify(&mut ctx, alg, &public_key, &message, &changed),
                Err(CryptoError::VerificationFailed)
            );
            let mut changed = message.clone();
            changed[5] ^= 1 << bit;
            assert_eq!(
                verify(&mut ctx, alg, &public_key, &changed, &signature),
                Err(CryptoError::VerificationFailed)
            );
        }
        assert_eq!(
            verify(&mut ctx, alg, &other_key, &message, &signature),
            Err(CryptoError::VerificationFailed)
        );
    }
}

#[test]
fn a_signature_under_another_algorithm_fails_verification() {
    let mut ctx = CryptoCtx::new();
    let kp = ctx.build_key_pair(SignatureAlgorithm::Ed25519).unwrap();
    let public_key = ctx.public_key_of(kp).unwrap();
    let signature = sign(&mut ctx, kp, b"m");
    assert_eq!(
        verify(&mut ctx, SignatureAlgorithm::ECDSA_P256_SHA256, &public_key, b"m", &signature),
        Err(CryptoError::VerificationFailed)
    );
}

#[test]
fn updates_in_pieces_equal_one_update() {
    let mut ctx = CryptoCtx::new();
    let kp = ctx.build_key_pair(SignatureAlgorithm::Ed25519).unwrap();
    let public_key = ctx.public_key_of(kp).unwrap();
    let pieces = ctx.open_signing_state(kp).unwrap();
    assert_eq!(ctx.sign_update(pieces, b"ab"), Ok(()));
    assert_eq!(ctx.sign_update(pieces, b""), Ok(()));
    assert_eq!(ctx.sign_update(pieces, b"cde"), Ok(()));
    let whole = ctx.open_signing_state(kp).unwrap();
    assert_eq!(ctx.sign_update(whole, b"abcde"), Ok(()));
    let signature = ctx.sign_finalize(pieces).unwrap();
    assert_eq!(ctx.sign_finalize(whole).unwrap(), signature);

    let verifier = ctx.open_verification_state(SignatureAlgorithm::Ed25519, &public_key).unwrap();
    assert_eq!(ctx.verify_update(verifier, b"a"), Ok(()));
    assert_eq!(ctx.verify_update(verifier, b"bcd"), Ok(()));
    assert_eq!(ctx.verify_update(verifier, b"e"), Ok(()));
    assert_eq!(ctx.verify_finalize(verifier, &signature), Ok(()));
}

#[test]
fn finalize_leaves_the_state_open() {
    let mut ctx = CryptoCtx::new();
    let kp = ctx.build_key_pair(SignatureAlgorithm::Ed25519).unwrap();
    let public_key = ctx.public_key_of(kp).unwrap();
    let state = ctx.open_signing_state(kp).unwrap();
    assert_eq!(ctx.sign_update(state, b"one"), Ok(()));
    let first = ctx.sign_finalize(state).unwrap();
    assert_eq!(ctx.sign_finalize(state).unwrap(), first);
    assert_eq!(ctx.sign_update(state, b"two"), Ok(()));
    let second = ctx.sign_finalize(state).unwrap();
    assert_ne!(first, second);

    let verifier = ctx.open_verification_state(SignatureAlgorithm::Ed25519, &public_key).unwrap();
    assert_eq!(ctx.verify_update(verifier, b"one"), Ok(()));
    assert_eq!(ctx.verify_finalize(verifier, &first), Ok(()));
    assert_eq!(ctx.verify_finalize(verifier, &first), Ok(()));
    assert_eq!(ctx.verify_finalize(verifier, &second), Err(CryptoError::VerificationFailed));
    assert_eq!(ctx.verify_update(verifier, b"two"), Ok(()));
    assert_eq!(ctx.verify_finalize(verifier, &second), Ok(()));
    assert_eq!(ctx.verify_finalize(verifier, &first), Err(CryptoError::VerificationFailed));
}

#[test]
fn a_closed_handle_is_invalid_for_every_operation() {
    let mut ctx = CryptoCtx::new();
    let kp = ctx.build_key_pair(SignatureAlgorithm::Ed25519).unwrap();
    let public_key = ctx.public_key_of(kp).unwrap();
    let signing = ctx.open_signing_state(kp).unwrap();
    let verifying = ctx.open_verification_state(SignatureAlgorithm::Ed25519, &public_key).unwrap();
    for h in [kp, signing, verifying] {
        assert_eq!(ctx.close_handle(h), Ok(()));
        assert_eq!(ctx.close_handle(h), Err(CryptoError::InvalidHandle));
        assert_eq!(ctx.export_key_pair(h), Err(CryptoError::InvalidHandle));
        assert_eq!(ctx.public_key_of(h), Err(CryptoError::InvalidHandle));
        assert_eq!(ctx.open_signing_state(h), Err(CryptoError::InvalidHandle));
        assert_eq!(ctx.sign_update(h, b"x"), Err(CryptoError::InvalidHandle));
        assert_eq!(ctx.sign_finalize(h), Err(CryptoError::InvalidHandle));
        assert_eq!(ctx.verify_update(h, b"x"), Err(CryptoError::InvalidHandle));
        assert_eq!(ctx.verify_finalize(h, &[0; 64]), Err(CryptoError::InvalidHandle));
    }
    let later = ctx.build_key_pair(SignatureAlgorithm::Ed25519).unwrap();
    assert_ne!(later, kp);
    assert_eq!(ctx.export_key_pair(kp), Err(CryptoError::InvalidHandle));
}

#[test]
fn a_handle_of_another_kind_is_invalid() {
    let mut ctx = CryptoCtx::new();
    let kp = ctx.build_key_pair(SignatureAlgorithm::Ed25519).unwrap();
    let public_key = ctx.public_key_of(kp).unwrap();
    let signing = ctx.open_signing_state(kp).unwrap();
    let verifying = ctx.open_verification_state(SignatureAlgorithm::Ed25519, &public_key).unwrap();
    assert_eq!(ctx.sign_update(kp, b"x"), Err(CryptoError::InvalidHandle));
    assert_eq!(ctx.sign_finalize(verifying), Err(CryptoError::InvalidHandle));
    assert_eq!(ctx.verify_update(signing, b"x"), Err(CryptoError::InvalidHandle));
    assert_eq!(ctx.verify_finalize(kp, &[0; 64]), Err(CryptoError::InvalidHandle));
    assert_eq!(ctx.export_key_pair(signing), Err(CryptoError::InvalidHandle));
    assert_eq!(ctx.public_key_of(verifying), Err(CryptoError::InvalidHandle));
    assert_eq!(ctx.open_signing_state(signing), Err(CryptoError::InvalidHandle));
    assert_eq!(ctx.sign_update(signing, b"x"), Ok(()));
    assert_eq!(ctx.verify_update(verifying, b"x"), Ok(()));
}

#[test]
fn a_state_outlives_the_handle_of_its_key_pair() {
    for alg in ALGORITHMS {
        let mut ctx = CryptoCtx::new();
        let kp = ctx.build_key_pair(alg).unwrap();
        let public_key = ctx.public_key_of(kp).unwrap();
        let state = ctx.open_signing_state(kp).unwrap();
        assert_eq!(ctx.close_handle(kp), Ok(()));
        assert_eq!(ctx.sign_update(state, b"still here"), Ok(()));
        let signature = ctx.sign_finalize(state).unwrap();
        assert_eq!(verify(&mut ctx, alg, &public_key, b"still here", &signature), Ok(()));
    }
}

#[test]
fn import_refuses_unsupported_encodings_and_malformed_keys() {
    for alg in ALGORITHMS {
        let mut ctx = CryptoCtx::new();
        let kp = ctx.build_key_pair(alg).unwrap();
        let exported = ctx.export_key_pair(kp).unwrap();
        for encoding in [KeyPairEncoding::Raw, KeyPairEncoding::DER, KeyPairEncoding::PEM] {
            assert_eq!(ctx.import_key_pair(alg, &exported, encoding), Err(CryptoError::Unsupported));
        }
        assert_eq!(
            ctx.import_key_pair(alg, &[], KeyPairEncoding::PKCS8),
            Err(CryptoError::InvalidKey)
        );
        assert_eq!(
            ctx.import_key_pair(alg, &exported[1..], KeyPairEncoding::PKCS8),
            Err(CryptoError::InvalidKey)
        );
        let mut changed = exported.clone();
        let last = changed.len() - 1;
        changed[last] ^= 0x80;
        assert_eq!(
            ctx.import_key_pair(alg, &changed, KeyPairEncoding::PKCS8),
            Err(CryptoError::InvalidKey)
        );
    }
}

#[test]
fn import_under_another_algorithm_is_an_invalid_key() {
    let mut ctx = CryptoCtx::new();
    let kp = ctx.build_key_pair(SignatureAlgorithm::Ed25519).unwrap();
    let exported = ctx.export_key_pair(kp).unwrap();
    assert_eq!(
        ctx.import_key_pair(SignatureAlgorithm::ECDSA_P256_SHA256, &exported, KeyPairEncoding::PKCS8),
        Err(CryptoError::InvalidKey)
    );
    let kp = ctx.build_key_pair(SignatureAlgorithm::ECDSA_P256_SHA256).unwrap();
    let exported = ctx.export_key_pair(kp).unwrap();
    assert_eq!(
        ctx.import_key_pair(SignatureAlgorithm::ECDSA_P384_SHA384, &exported, KeyPairEncoding::PKCS8),
        Err(CryptoError::InvalidKey)
    );
    assert_eq!(
        ctx.import_key_pair(SignatureAlgorithm::Ed25519, &exported, KeyPairEncoding::PKCS8),
        Err(CryptoError::InvalidKey)
    );
}

#[test]
fn a_failed_operation_registers_nothing() {
    let mut ctx = CryptoCtx::new();
    let first = ctx.build_key_pair(SignatureAlgorithm::Ed25519).unwrap();
    assert_eq!(
        ctx.import_key_pair(SignatureAlgorithm::Ed25519, &[1], KeyPairEncoding::PKCS8),
        Err(CryptoError::InvalidKey)
    );
    assert_eq!(ctx.close_handle(first), Ok(()));
    assert_eq!(ctx.open_signing_state(first), Err(CryptoError::InvalidHandle));
    let second = ctx.build_key_pair(SignatureAlgorithm::Ed25519).unwrap();
    assert_ne!(first, second);
    assert!(ctx.export_key_pair(second).is_ok());
}

#[test]
fn sum_types_dispatch_to_their_family() {
    let mut state = SignatureVerificationState::open(SignatureAlgorithm::Ed25519, &[7; 32]);
    assert!(matches!(state, SignatureVerificationState::EdDSA(_)));
    assert_eq!(state.update(b"x"), Ok(()));
    assert_eq!(state.verify(&[0; 64]), Err(CryptoError::VerificationFailed));
    let state = SignatureVerificationState::open(SignatureAlgorithm::ECDSA_P384_SHA384, &[4; 97]);
    assert!(matches!(state, SignatureVerificationState::ECDSA(_)));
    assert_eq!(state.verify(&[0; 96]), Err(CryptoError::VerificationFailed));

    let kp = signature_handles::eddsa::EdDSASignatureKeyPair::generate(SignatureAlgorithm::Ed25519)
        .ok()
        .unwrap();
    let kp = signature_handles::signature_keypair::SignatureKeyPair::EdDSA(kp);
    let public_key = kp.raw_public_key().to_vec();
    assert_eq!(kp.clone().export(), kp.export());
    let mut signing = SignatureState::open(kp);
    assert!(matches!(signing, SignatureState::EdDSA(_)));
    assert_eq!(signing.update(b"x"), Ok(()));
    let signature = signing.sign().unwrap();
    let mut verifying = SignatureVerificationState::open(SignatureAlgorithm::Ed25519, &public_key);
    assert_eq!(verifying.update(b"x"), Ok(()));
    assert_eq!(verifying.verify(&signature), Ok(()));
}

//! The boundary to the signature primitives.
//!
//! Key generation, key parsing, signing and verification are done by `ring`.
//! The functions here that are marked `external_body` make those calls, from
//! bytes to bytes. Their bodies are not verified: each states what is taken on
//! trust about the call it makes, in terms of the spec functions without a
//! body that are declared here, which stand for what `ring` computes from
//! given bytes. A key pair of `ring` is never kept: a function that needs one
//! builds it from the PKCS#8 document each time.

use vstd::prelude::*;

verus! {

/// The two ECDSA schemes that the provider is asked for: a curve, the digest
/// that goes with it, and signatures in the fixed-length form `r || s`.
#[derive(Clone, Copy, Debug, PartialEq, Eq, Structural)]
pub enum EcdsaScheme {
    P256Sha256,
    P384Sha384,
}

/// The verification algorithms that the provider is asked for.
#[derive(Clone, Copy, Debug, PartialEq, Eq, Structural)]
pub enum VerificationScheme {
    Ed25519,
    EcdsaP256Sha256,
    EcdsaP384Sha384,
}

impl VerificationScheme {
    /// The length in bytes of every signature under this scheme: `ring` makes
    /// Ed25519 signatures of 64 bytes, and fixed-length ECDSA signatures of two
    /// components of 32 bytes over P-256 and of 48 bytes over P-384.
    pub open spec fn signature_len(self) -> nat {
        match self {
            VerificationScheme::Ed25519 => 64,
            VerificationScheme::EcdsaP256Sha256 => 64,
            VerificationScheme::EcdsaP384Sha384 => 96,
        }
    }
}

impl EcdsaScheme {
    /// The length in bytes of every raw public key under this scheme: an
    /// uncompressed point, one byte and two coordinates of 32 bytes over P-256
    /// and of 48 bytes over P-384.
    pub open spec fn public_key_len(self) -> nat {
        match self {
            EcdsaScheme::P256Sha256 => 65,
            EcdsaScheme::P384Sha384 => 97,
        }
    }

    /// The verification algorithm for signatures made under this scheme.
    pub open spec fn verification_spec(self) -> VerificationScheme {
        match self {
            EcdsaScheme::P256Sha256 => VerificationScheme::EcdsaP256Sha256,
            EcdsaScheme::P384Sha384 => VerificationScheme::EcdsaP384Sha384,
        }
    }

    /// The verification algorithm for signatures made under this scheme.
    #[verifier::when_used_as_spec(verification_spec)]
    pub fn verification(self) -> (r: VerificationScheme)
        ensures
            r == self.verification_spec(),
    {
        match self {
            EcdsaScheme::P256Sha256 => VerificationScheme::EcdsaP256Sha256,
            EcdsaScheme::P384Sha384 => VerificationScheme::EcdsaP384Sha384,
        }
    }
}

/// What building a key pair from a document came to.
#[derive(Debug)]
pub enum KeyOutcome {
    /// The provider built the key pair; this is its raw public key.
    Key(Vec<u8>),
    /// The provider refused the document.
    Rejected,
    /// The provider accepted the document and then got no random bytes.
    NoRandomness,
}

/// What signing came to.
#[derive(Debug)]
pub enum SignOutcome {
    /// The provider signed; these are the bytes of the signature.
    Signature(Vec<u8>),
    /// The provider refused the document of the key pair.
    KeyRejected,
    /// The provider got no random bytes that it could use.
    NoRandomness,
}

/// The raw public key of the Ed25519 key pair that
/// `ring::signature::Ed25519KeyPair::from_pkcs8` builds from `pkcs8`, or `None`
/// where it rejects `pkcs8`.
pub uninterp spec fn ed25519_public_key(pkcs8: Seq<u8>) -> Option<Seq<u8>>;

/// The bytes that `ring::signature::Ed25519KeyPair::sign` returns for `message`
/// under the key pair built from `pkcs8`. Ed25519 draws no randomness: the
/// signature is fixed by the key and the message.
pub uninterp spec fn ed25519_signature(pkcs8: Seq<u8>, message: Seq<u8>) -> Seq<u8>;

/// Whether `ring::signature::UnparsedPublicKey::verify` accepts `signature` for
/// `message` under `public_key`, with the verification algorithm that `scheme`
/// stands for: `ring::signature::ED25519`,
/// `ring::signature::ECDSA_P256_SHA256_FIXED` or
/// `ring::signature::ECDSA_P384_SHA384_FIXED`.
pub uninterp spec fn signature_accepted(
    scheme: VerificationScheme,
    public_key: Seq<u8>,
    message: Seq<u8>,
    signature: Seq<u8>,
) -> bool;

/// The raw public key that `ring::signature::EcdsaKeyPair::from_pkcs8` reads
/// from `pkcs8` under `scheme`, or `None` where it refuses to read `pkcs8`.
/// After reading, the call draws random bytes and fails when it gets none;
/// that is no part of this value, which the bytes alone decide.
pub uninterp spec fn ecdsa_public_key(scheme: EcdsaScheme, pkcs8: Seq<u8>) -> Option<Seq<u8>>;

/// Calls `ring::signature::Ed25519KeyPair::generate_pkcs8` with a
/// `ring::rand::SystemRandom` and returns the PKCS#8 document, or `None` where
/// the random source failed. Nothing is claimed of the bytes: they are random.
#[verifier::external_body]
pub(crate) fn ed25519_generate_pkcs8() -> (r: Option<Vec<u8>>) {
    let rng = ring::rand::SystemRandom::new();
    match ring::signature::Ed25519KeyPair::generate_pkcs8(&rng) {
        Ok(document) => Some(document.as_ref().to_vec()),
        Err(_) => None,
    }
}

/// Calls `ring::signature::Ed25519KeyPair::from_pkcs8` on `pkcs8` and returns
/// the public key of the key pair, or `Rejected` where the call fails.
/// Claimed: the outcome is the one that `ed25519_public_key` names, and a key
/// has 32 bytes, the fixed size of `ring`'s Ed25519 public key. The call draws
/// nothing, so `NoRandomness` never comes back.
#[verifier::external_body]
pub(crate) fn ed25519_derive_public_key(pkcs8: &[u8]) -> (r: KeyOutcome)
    ensures
        match r {
            KeyOutcome::Key(key) => ed25519_public_key(pkcs8@) == Some(key@) && key@.len() == 32,
            KeyOutcome::Rejected => ed25519_public_key(pkcs8@) is None,
            KeyOutcome::NoRandomness => false,
        },
{
    match ring::signature::Ed25519KeyPair::from_pkcs8(pkcs8) {
        Ok(pair) => KeyOutcome::Key(ring::signature::KeyPair::public_key(&pair).as_ref().to_vec()),
        Err(_) => KeyOutcome::Rejected,
    }
}

/// Calls `ring::signature::Ed25519KeyPair::sign` on `message`, with the key
/// pair that `from_pkcs8` builds from `pkcs8`; `KeyRejected` comes back where
/// `from_pkcs8` fails. Claimed: it signs exactly where the document is
/// accepted, since `sign` itself does not fail and draws nothing; the
/// signature is the one that `ed25519_signature` names and has 64 bytes, the
/// fixed length that `sign` fills; and verification with
/// `ring::signature::ED25519` under the key pair's public key accepts it for
/// `message`, which is what `ring` documents of the two calls together and
/// what makes the bytes a signature.
#[verifier::external_body]
pub(crate) fn ed25519_sign(pkcs8: &[u8], message: &[u8]) -> (r: SignOutcome)
    ensures
        match r {
            SignOutcome::Signature(signature) => {
                &&& ed25519_public_key(pkcs8@) is Some
                &&& signature@ == ed25519_signature(pkcs8@, message@)
                &&& signature@.len() == VerificationScheme::Ed25519.signature_len()
                &&& signature_accepted(
                    VerificationScheme::Ed25519,
                    ed25519_public_key(pkcs8@)->Some_0,
                    message@,
                    signature@,
                )
            },
            SignOutcome::KeyRejected => ed25519_public_key(pkcs8@) is None,
            SignOutcome::NoRandomness => false,
        },
{
    match ring::signature::Ed25519KeyPair::from_pkcs8(pkcs8) {
        Ok(pair) => SignOutcome::Signature(pair.sign(message).as_ref().to_vec()),
        Err(_) => SignOutcome::KeyRejected,
    }
}

/// Calls `ring::signature::EcdsaKeyPair::generate_pkcs8` with the signing
/// algorithm of `scheme` and a `ring::rand::SystemRandom`, and returns the
/// PKCS#8 document, or `None` where the call failed. Nothing is claimed of the
/// bytes: they are random.
#[verifier::external_body]
pub(crate) fn ecdsa_generate_pkcs8(scheme: EcdsaScheme) -> (r: Option<Vec<u8>>) {
    let alg = match scheme {
        EcdsaScheme::P256Sha256 => &ring::signature::ECDSA_P256_SHA256_FIXED_SIGNING,
        EcdsaScheme::P384Sha384 => &ring::signature::ECDSA_P384_SHA384_FIXED_SIGNING,
    };
    let rng = ring::rand::SystemRandom::new();
    match ring::signature::EcdsaKeyPair::generate_pkcs8(alg, &rng) {
        Ok(document) => Some(document.as_ref().to_vec()),
        Err(_) => None,
    }
}

/// Calls `ring::signature::EcdsaKeyPair::from_pkcs8` with the signing
/// algorithm of `scheme` and returns the public key of the key pair. The call
/// first reads the document and then draws random bytes; where the draw
/// fails, its error carries the reason `"RNG failed"`, which it gives in no
/// other place, and `NoRandomness` comes back for it. Every other error is
/// `Rejected`. Claimed: a key that comes back is the one that
/// `ecdsa_public_key` names and has the length that `ring` fixes for the
/// curve; `Rejected` comes back exactly for a document that
/// the call refuses to read; and a failed draw follows only on a document
/// that it has accepted.
#[verifier::external_body]
pub(crate) fn ecdsa_derive_public_key(scheme: EcdsaScheme, pkcs8: &[u8]) -> (r: KeyOutcome)
    ensures
        match r {
            KeyOutcome::Key(key) => ecdsa_public_key(scheme, pkcs8@) == Some(key@) && key@.len()
                == scheme.public_key_len(),
            KeyOutcome::Rejected => ecdsa_public_key(scheme, pkcs8@) is None,
            KeyOutcome::NoRandomness => ecdsa_public_key(scheme, pkcs8@) is Some,
        },
{
    let alg = match scheme {
        EcdsaScheme::P256Sha256 => &ring::signature::ECDSA_P256_SHA256_FIXED_SIGNING,
        EcdsaScheme::P384Sha384 => &ring::signature::ECDSA_P384_SHA384_FIXED_SIGNING,
    };
    match ring::signature::EcdsaKeyPair::from_pkcs8(alg, pkcs8) {
        Ok(pair) => KeyOutcome::Key(ring::signature::KeyPair::public_key(&pair).as_ref().to_vec()),
        Err(e) if e.description_() == "RNG failed" => KeyOutcome::NoRandomness,
        Err(_) => KeyOutcome::Rejected,
    }
}

/// Calls `ring::signature::EcdsaKeyPair::sign` on `message` with a
/// `ring::rand::SystemRandom`, under the key pair that `from_pkcs8` builds from
/// `pkcs8`. Each call draws a fresh nonce, so the bytes are not named.
/// `from_pkcs8` failing comes back as in `ecdsa_derive_public_key`. `sign`
/// reports no cause when it fails; it fails only where its random source
/// gives it no nonce that it can use, and `NoRandomness` comes back for it.
/// Claimed of every signature that comes back: the document was accepted, the
/// signature has the length that `ring` documents for the fixed-length form,
/// and verification with the fixed-length algorithm of the same curve and
/// digest, under the document's public key, accepts the signature for
/// `message`. Claimed of `KeyRejected`: the document is one that the call refuses to
/// read.
#[verifier::external_body]
pub(crate) fn ecdsa_sign(scheme: EcdsaScheme, pkcs8: &[u8], message: &[u8]) -> (r: SignOutcome)
    ensures
        match r {
            SignOutcome::Signature(signature) => {
                &&& ecdsa_public_key(scheme, pkcs8@) is Some
                &&& signature@.len() == scheme.verification().signature_len()
                &&& signature_accepted(
                    scheme.verification(),
                    ecdsa_public_key(scheme, pkcs8@)->Some_0,
                    message@,
                    signature@,
                )
            },
            SignOutcome::KeyRejected => ecdsa_public_key(scheme, pkcs8@) is None,
            SignOutcome::NoRandomness => true,
        },
{
    let alg = match scheme {
        EcdsaScheme::P256Sha256 => &ring::signature::ECDSA_P256_SHA256_FIXED_SIGNING,
        EcdsaScheme::P384Sha384 => &ring::signature::ECDSA_P384_SHA384_FIXED_SIGNING,
    };
    let pair = match ring::signature::EcdsaKeyPair::from_pkcs8(alg, pkcs8) {
        Ok(pair) => pair,
        Err(e) if e.description_() == "RNG failed" => return SignOutcome::NoRandomness,
        Err(_) => return SignOutcome::KeyRejected,
    };
    match pair.sign(&ring::rand::SystemRandom::new(), message) {
        Ok(signature) => SignOutcome::Signature(signature.as_ref().to_vec()),
        Err(_) => SignOutcome::NoRandomness,
    }
}

/// Calls `ring::signature::UnparsedPublicKey::verify`, on a key made by
/// `ring::signature::UnparsedPublicKey::new` with the verification algorithm
/// that `scheme` stands for. Claimed: the answer is the one that
/// `signature_accepted` names. A malformed key or signature is a rejection.
#[verifier::external_body]
pub(crate) fn verify_signature(
    scheme: VerificationScheme,
    public_key: &[u8],
    message: &[u8],
    signature: &[u8],
) -> (r: bool)
    ensures
        r == signature_accepted(scheme, public_key@, message@, signature@),
{
    let alg: &'static dyn ring::signature::VerificationAlgorithm = match scheme {
        VerificationScheme::Ed25519 => &ring::signature::ED25519,
        VerificationScheme::EcdsaP256Sha256 => &ring::signature::ECDSA_P256_SHA256_FIXED,
        VerificationScheme::EcdsaP384Sha384 => &ring::signature::ECDSA_P384_SHA384_FIXED,
    };
    ring::signature::UnparsedPublicKey::new(alg, public_key).verify(message, signature).is_ok()
}

} // verus!

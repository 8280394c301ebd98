use crate::error::CryptoError;
use crate::provider::{
    ecdsa_public_key, ed25519_public_key, ed25519_signature, signature_accepted, EcdsaScheme,
    VerificationScheme,
};
use crate::ecdsa::{
    ECDSASignature, ECDSASignaturePublicKey, ECDSASignatureState,
    ECDSASignatureVerificationState,
};
use crate::eddsa::{
    EdDSASignature, EdDSASignaturePublicKey, EdDSASignatureState,
    EdDSASignatureVerificationState,
};
use crate::signature_keypair::{KeyPairView, SignatureKeyPair};
use vstd::prelude::*;
use vstd::slice::slice_to_vec;

verus! {

/// The signature schemes that this library knows.
#[allow(non_camel_case_types)]
#[derive(Clone, Copy, Debug, PartialEq, Eq, Hash, Structural)]
pub enum SignatureAlgorithm {
    ECDSA_P256_SHA256,
    ECDSA_P384_SHA384,
    Ed25519,
}

/// The two families of schemes. A family has its own key pair, builder and
/// state types; which one serves an algorithm depends on the identifier alone.
#[derive(Clone, Copy, Debug, PartialEq, Eq, Structural)]
pub enum SignatureFamily {
    ECDSA,
    EdDSA,
}

impl SignatureAlgorithm {
    /// The family that implements this algorithm.
    pub open spec fn family_spec(self) -> SignatureFamily {
        match self {
            SignatureAlgorithm::ECDSA_P256_SHA256 => SignatureFamily::ECDSA,
            SignatureAlgorithm::ECDSA_P384_SHA384 => SignatureFamily::ECDSA,
            SignatureAlgorithm::Ed25519 => SignatureFamily::EdDSA,
        }
    }

    /// The ECDSA scheme that the provider is asked for under this algorithm, if
    /// it is an ECDSA algorithm.
    pub open spec fn ecdsa_scheme(self) -> Option<EcdsaScheme> {
        match self {
            SignatureAlgorithm::ECDSA_P256_SHA256 => Some(EcdsaScheme::P256Sha256),
            SignatureAlgorithm::ECDSA_P384_SHA384 => Some(EcdsaScheme::P384Sha384),
            SignatureAlgorithm::Ed25519 => None,
        }
    }

    /// The verification algorithm that the provider is asked for under this
    /// algorithm.
    pub open spec fn verification_scheme(self) -> VerificationScheme {
        match self {
            SignatureAlgorithm::ECDSA_P256_SHA256 => VerificationScheme::EcdsaP256Sha256,
            SignatureAlgorithm::ECDSA_P384_SHA384 => VerificationScheme::EcdsaP384Sha384,
            SignatureAlgorithm::Ed25519 => VerificationScheme::Ed25519,
        }
    }

    /// The length in bytes of every signature under this algorithm.
    pub open spec fn signature_len(self) -> nat {
        self.verification_scheme().signature_len()
    }

    /// The length in bytes of every raw public key that the provider derives
    /// under this algorithm.
    pub open spec fn public_key_len(self) -> nat {
        match self {
            SignatureAlgorithm::ECDSA_P256_SHA256 => EcdsaScheme::P256Sha256.public_key_len(),
            SignatureAlgorithm::ECDSA_P384_SHA384 => EcdsaScheme::P384Sha384.public_key_len(),
            SignatureAlgorithm::Ed25519 => 32,
        }
    }

    /// The family that implements this algorithm.
    #[verifier::when_used_as_spec(family_spec)]
    pub fn family(self) -> (r: SignatureFamily)
        ensures
            r == self.family_spec(),
    {
        match self {
            SignatureAlgorithm::ECDSA_P256_SHA256 => SignatureFamily::ECDSA,
            SignatureAlgorithm::ECDSA_P384_SHA384 => SignatureFamily::ECDSA,
            SignatureAlgorithm::Ed25519 => SignatureFamily::EdDSA,
        }
    }
}

/// The public key that the provider derives from the encoded private key
/// `encoded` under `alg`, or `None` where it rejects `encoded`.
pub open spec fn provider_public_key(alg: SignatureAlgorithm, encoded: Seq<u8>) -> Option<
    Seq<u8>,
> {
    match alg {
        SignatureAlgorithm::ECDSA_P256_SHA256 => ecdsa_public_key(
            EcdsaScheme::P256Sha256,
            encoded,
        ),
        SignatureAlgorithm::ECDSA_P384_SHA384 => ecdsa_public_key(
            EcdsaScheme::P384Sha384,
            encoded,
        ),
        SignatureAlgorithm::Ed25519 => ed25519_public_key(encoded),
    }
}

/// Whether the provider's verification under `alg` accepts `signature` for
/// `message` and `public_key`.
pub open spec fn provider_accepts(
    alg: SignatureAlgorithm,
    public_key: Seq<u8>,
    message: Seq<u8>,
    signature: Seq<u8>,
) -> bool {
    signature_accepted(alg.verification_scheme(), public_key, message, signature)
}

/// The model of a signing state: the key pair it signs with and the bytes fed
/// to it so far.
pub struct SigningStateView {
    pub key: KeyPairView,
    pub input: Seq<u8>,
}

impl SigningStateView {
    /// The state after `bytes` were fed to it.
    pub open spec fn update(self, bytes: Seq<u8>) -> Self {
        SigningStateView { key: self.key, input: self.input + bytes }
    }

    /// Whether finalizing this state may return `signature`: it has the length
    /// of the algorithm's signatures, the provider's verification accepts it
    /// for the bytes fed so far under the key pair's public key, and under
    /// Ed25519 it is the one signature that the key and the bytes determine.
    pub open spec fn signs(self, signature: Seq<u8>) -> bool {
        &&& signature.len() == self.key.alg.signature_len()
        &&& provider_accepts(self.key.alg, self.key.public_key, self.input, signature)
        &&& self.key.alg == SignatureAlgorithm::Ed25519 ==> signature == ed25519_signature(
            self.key.encoded,
            self.input,
        )
    }
}

/// The model of a verification state: the public key it checks against and the
/// bytes fed to it so far.
pub struct VerificationStateView {
    pub alg: SignatureAlgorithm,
    pub public_key: Seq<u8>,
    pub input: Seq<u8>,
}

impl VerificationStateView {
    /// The state after `bytes` were fed to it.
    pub open spec fn update(self, bytes: Seq<u8>) -> Self {
        VerificationStateView {
            alg: self.alg,
            public_key: self.public_key,
            input: self.input + bytes,
        }
    }

    /// Whether the provider accepts `signature` for the bytes fed so far.
    pub open spec fn accepts(self, signature: Seq<u8>) -> bool {
        provider_accepts(self.alg, self.public_key, self.input, signature)
    }

    /// What finalizing this state with `signature` returns. Every mismatch, of
    /// the signature, the bytes or the key, gives the same error.
    pub open spec fn verdict(self, signature: Seq<u8>) -> Result<(), CryptoError> {
        if self.accepts(signature) {
            Ok(())
        } else {
            Err(CryptoError::VerificationFailed)
        }
    }
}

/// A signing state of either family.
pub enum SignatureState {
    ECDSA(ECDSASignatureState),
    EdDSA(EdDSASignatureState),
}

impl View for SignatureState {
    type V = SigningStateView;

    open spec fn view(&self) -> SigningStateView {
        match self {
            SignatureState::ECDSA(state) => state@,
            SignatureState::EdDSA(state) => state@,
        }
    }
}

impl SignatureState {
    /// A state that signs with `kp` and has been fed nothing.
    pub fn open(kp: SignatureKeyPair) -> (r: Self)
        ensures
            r@ == (SigningStateView { key: kp@, input: Seq::<u8>::empty() }),
    {
        match kp {
            SignatureKeyPair::ECDSA(kp) => SignatureState::ECDSA(ECDSASignatureState::new(kp)),
            SignatureKeyPair::EdDSA(kp) => SignatureState::EdDSA(EdDSASignatureState::new(kp)),
        }
    }

    /// Appends `input` to the bytes to be signed.
    pub fn update(&mut self, input: &[u8]) -> (r: Result<(), CryptoError>)
        ensures
            r is Ok,
            final(self)@ == old(self)@.update(input@),
    {
        match self {
            SignatureState::ECDSA(state) => state.update(input),
            SignatureState::EdDSA(state) => state.update(input),
        }
    }

    /// A signature over all bytes fed so far.
    ///
    /// Under Ed25519 this never fails and the signature is the one that the
    /// key and the bytes determine. Under ECDSA it is one of many that
    /// verification accepts, and the call fails with `RNGFailure` where the
    /// provider gets no random bytes.
    pub fn sign(&self) -> (r: Result<Vec<u8>, CryptoError>)
        ensures
            match r {
                Ok(signature) => self@.signs(signature@),
                Err(e) => e == CryptoError::RNGFailure && self@.key.alg
                    != SignatureAlgorithm::Ed25519,
            },
    {
        match self {
            SignatureState::ECDSA(state) => {
                proof {
                    use_type_invariant(&state.kp);
                }
                match state.sign() {
                    Ok(signature) => Ok(signature.0),
                    Err(e) => Err(e),
                }
            },
            SignatureState::EdDSA(state) => {
                match state.sign() {
                    Ok(signature) => Ok(signature.0),
                    Err(e) => Err(e),
                }
            },
        }
    }
}

/// A verification state of either family.
pub enum SignatureVerificationState {
    ECDSA(ECDSASignatureVerificationState),
    EdDSA(EdDSASignatureVerificationState),
}

impl View for SignatureVerificationState {
    type V = VerificationStateView;

    open spec fn view(&self) -> VerificationStateView {
        match self {
            SignatureVerificationState::ECDSA(state) => state@,
            SignatureVerificationState::EdDSA(state) => state@,
        }
    }
}

impl SignatureVerificationState {
    /// The state is of the family that implements the algorithm of its public
    /// key.
    pub open spec fn well_matched(self) -> bool {
        match self {
            SignatureVerificationState::ECDSA(_) => self@.alg.family() == SignatureFamily::ECDSA,
            SignatureVerificationState::EdDSA(_) => self@.alg.family() == SignatureFamily::EdDSA,
        }
    }

    /// A state that checks signatures under `alg` against the raw public key
    /// `public_key` and has been fed nothing. The key is not looked at before a
    /// signature is verified with it.
    pub fn open(alg: SignatureAlgorithm, public_key: &[u8]) -> (r: Self)
        ensures
            r.well_matched(),
            r@ == (VerificationStateView {
                alg,
                public_key: public_key@,
                input: Seq::<u8>::empty(),
            }),
    {
        match alg.family() {
            SignatureFamily::ECDSA => {
                let pk = ECDSASignaturePublicKey::from_raw(alg, public_key).unwrap();
                SignatureVerificationState::ECDSA(ECDSASignatureVerificationState::new(pk))
            },
            SignatureFamily::EdDSA => {
                let pk = EdDSASignaturePublicKey::from_raw(alg, public_key).unwrap();
                SignatureVerificationState::EdDSA(EdDSASignatureVerificationState::new(pk))
            },
        }
    }

    /// Appends `input` to the bytes that a signature is checked against.
    pub fn update(&mut self, input: &[u8]) -> (r: Result<(), CryptoError>)
        ensures
            r is Ok,
            final(self)@ == old(self)@.update(input@),
            final(self).well_matched() == old(self).well_matched(),
    {
        match self {
            SignatureVerificationState::ECDSA(state) => state.update(input),
            SignatureVerificationState::EdDSA(state) => state.update(input),
        }
    }

    /// Checks `signature` against the public key and all bytes fed so far.
    ///
    /// A state that holds a public key for an algorithm of the other family
    /// gives `Unsupported`. Else the result is `Ok` where the provider accepts
    /// the signature and `VerificationFailed` where it does not, whatever the
    /// reason.
    pub fn verify(&self, signature: &[u8]) -> (r: Result<(), CryptoError>)
        ensures
            r == (if self.well_matched() {
                self@.verdict(signature@)
            } else {
                Err(CryptoError::Unsupported)
            }),
    {
        let copy = slice_to_vec(signature);
        match self {
            SignatureVerificationState::ECDSA(state) => state.verify(&ECDSASignature(copy)),
            SignatureVerificationState::EdDSA(state) => state.verify(&EdDSASignature::new(copy)),
        }
    }
}

/// Feeding `a` and then `b` to a signing state leaves it as feeding `a + b` at
/// once does, so finalizing gives the same in both.
pub proof fn lemma_signing_update_associative(state: SigningStateView, a: Seq<u8>, b: Seq<u8>)
    ensures
        state.update(a).update(b) == state.update(a + b),
        forall|signature: Seq<u8>|
            state.update(a).update(b).signs(signature) == state.update(a + b).signs(signature),
{
    assert((state.input + a) + b =~= state.input + (a + b));
}

/// Feeding `a` and then `b` to a verification state leaves it as feeding
/// `a + b` at once does, so finalizing gives the same in both.
pub proof fn lemma_verification_update_associative(
    state: VerificationStateView,
    a: Seq<u8>,
    b: Seq<u8>,
)
    ensures
        state.update(a).update(b) == state.update(a + b),
        forall|signature: Seq<u8>|
            state.update(a).update(b).verdict(signature) == state.update(a + b).verdict(
                signature,
            ),
{
    assert((state.input + a) + b =~= state.input + (a + b));
}

/// Under Ed25519 the key and the message determine the signature: two
/// finalizations, of one state or of two, return the same bytes where the
/// encoded keys and the bytes fed are the same.
pub proof fn lemma_eddsa_signature_is_determined(
    first: SigningStateView,
    second: SigningStateView,
    first_signature: Seq<u8>,
    second_signature: Seq<u8>,
)
    requires
        first.key.alg == SignatureAlgorithm::Ed25519,
        second.key.alg == SignatureAlgorithm::Ed25519,
        first.key.encoded == second.key.encoded,
        first.input == second.input,
        first.signs(first_signature),
        second.signs(second_signature),
    ensures
        first_signature == second_signature,
{
}

/// A signature that finalizing a signing state returned is accepted by a
/// verification state that holds the key pair's public key, under the same
/// algorithm, and was fed the same bytes. The message may be empty.
pub proof fn lemma_signature_verifies(
    signing: SigningStateView,
    verifying: VerificationStateView,
    signature: Seq<u8>,
)
    requires
        signing.signs(signature),
        verifying.alg == signing.key.alg,
        verifying.public_key == signing.key.public_key,
        verifying.input == signing.input,
    ensures
        verifying.verdict(signature) == Ok::<(), CryptoError>(()),
{
}

/// Where the provider rejects a signature, finalizing gives
/// `VerificationFailed`: the verdict does not depend on why it was rejected,
/// and it is never `Ok`.
pub proof fn lemma_rejection_is_verification_failed(
    verifying: VerificationStateView,
    signature: Seq<u8>,
)
    requires
        !verifying.accepts(signature),
    ensures
        verifying.verdict(signature) == Err::<(), CryptoError>(CryptoError::VerificationFailed),
{
}

} // verus!

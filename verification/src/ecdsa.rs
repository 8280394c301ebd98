use crate::context::CryptoCtx;
use crate::error::{
    generation_result, parsing_result, signing_result, verification_result, CryptoError,
};
use crate::handles::Handle;
use crate::provider::{
    ecdsa_derive_public_key, ecdsa_generate_pkcs8, ecdsa_sign, verify_signature, EcdsaScheme,
};
use crate::secret::SecretBytes;
use crate::signature::{SignatureAlgorithm, SigningStateView, VerificationStateView};
use crate::signature_keypair::{
    generate_outcome, generated_view, import_outcome, import_spec, result_view, KeyPairEncoding,
    KeyPairView, SignatureKeyPair,
};
use vstd::prelude::*;
use vstd::slice::slice_to_vec;

verus! {

/// The choice of an algorithm for an operation of this family.
#[derive(Clone, Copy, Debug)]
pub struct ECDSASignatureOp {
    pub alg: SignatureAlgorithm,
}

impl ECDSASignatureOp {
    /// An operation under `alg`.
    pub fn new(alg: SignatureAlgorithm) -> (r: Self)
        ensures
            r.alg == alg,
    {
        ECDSASignatureOp { alg }
    }
}

/// An ECDSA key pair: the PKCS#8 document it was made from, and the public key
/// that the provider derived from the document when the pair was made.
///
/// The two never change and always describe the same key. The document is
/// erased when the pair is dropped.
pub struct ECDSASignatureKeyPair {
    alg: SignatureAlgorithm,
    pkcs8: SecretBytes,
    public_key: Vec<u8>,
}

impl View for ECDSASignatureKeyPair {
    type V = KeyPairView;

    closed spec fn view(&self) -> KeyPairView {
        KeyPairView { alg: self.alg, encoded: self.pkcs8@, public_key: self.public_key@ }
    }
}

impl ECDSASignatureKeyPair {
    /// Holds of every key pair of this type.
    #[verifier::type_invariant]
    pub open spec fn inv(self) -> bool {
        &&& self@.alg.ecdsa_scheme() is Some
        &&& self@.valid()
    }

    /// What `from_pkcs8` gives as far as the bytes decide: `Unsupported` for an
    /// algorithm that is not of this family, and else what the bytes decide.
    pub open spec fn from_pkcs8_spec(alg: SignatureAlgorithm, pkcs8: Seq<u8>) -> Result<
        KeyPairView,
        CryptoError,
    > {
        if alg.ecdsa_scheme() is None {
            Err(CryptoError::Unsupported)
        } else {
            import_spec(alg, pkcs8, KeyPairEncoding::PKCS8)
        }
    }

    /// What `from_generated` gives as far as the bytes decide: `Unsupported` for an algorithm that is
    /// not of this family. Else the key pair that `from_pkcs8` gives for the
    /// generated document, and `RNGFailure` where the provider generated
    /// nothing or no key pair is built from what it generated.
    pub open spec fn from_generated_spec(
        alg: SignatureAlgorithm,
        generated: Option<Seq<u8>>,
    ) -> Result<KeyPairView, CryptoError> {
        if alg.ecdsa_scheme() is None {
            Err(CryptoError::Unsupported)
        } else {
            match generated {
                Some(pkcs8) => match Self::from_pkcs8_spec(alg, pkcs8) {
                    Ok(key_pair) => Ok(key_pair),
                    Err(_) => Err(CryptoError::RNGFailure),
                },
                None => Err(CryptoError::RNGFailure),
            }
        }
    }

    /// The scheme that the provider is asked for under `alg`, or `Unsupported`
    /// where `alg` is not an ECDSA algorithm.
    pub fn ring_alg_from_alg(alg: SignatureAlgorithm) -> (r: Result<EcdsaScheme, CryptoError>)
        ensures
            r == (match alg.ecdsa_scheme() {
                Some(scheme) => Ok(scheme),
                None => Err(CryptoError::Unsupported),
            }),
    {
        let ring_alg = match alg {
            SignatureAlgorithm::ECDSA_P256_SHA256 => EcdsaScheme::P256Sha256,
            SignatureAlgorithm::ECDSA_P384_SHA384 => EcdsaScheme::P384Sha384,
            _ => {
                return Err(CryptoError::Unsupported);
            },
        };
        Ok(ring_alg)
    }

    fn from_secret(alg: SignatureAlgorithm, pkcs8: SecretBytes) -> (r: Result<Self, CryptoError>)
        ensures
            import_outcome(alg, Self::from_pkcs8_spec(alg, pkcs8@), result_view(r)),
    {
        let ring_alg = match Self::ring_alg_from_alg(alg) {
            Ok(ring_alg) => ring_alg,
            Err(e) => {
                return Err(e);
            },
        };
        match parsing_result(ecdsa_derive_public_key(ring_alg, pkcs8.as_slice())) {
            Ok(public_key) => Ok(ECDSASignatureKeyPair { alg, pkcs8, public_key }),
            Err(e) => Err(e),
        }
    }

    /// The key pair that the PKCS#8 document `pkcs8` encodes.
    ///
    /// The result is what the bytes decide, except that the provider draws
    /// random bytes once it has accepted the document: where it gets none,
    /// the result is `RNGFailure`. `InvalidKey` comes exactly for a document
    /// that the provider refuses.
    pub fn from_pkcs8(alg: SignatureAlgorithm, pkcs8: &[u8]) -> (r: Result<Self, CryptoError>)
        ensures
            import_outcome(alg, Self::from_pkcs8_spec(alg, pkcs8@), result_view(r)),
            r matches Ok(kp) ==> kp@.valid(),
    {
        let r = Self::from_secret(alg, SecretBytes::new(pkcs8));
        match &r {
            Ok(kp) => {
                proof {
                    use_type_invariant(kp);
                }
            },
            Err(_) => {},
        }
        r
    }

    /// The PKCS#8 document, byte for byte as it was given or generated.
    pub fn as_pkcs8(&self) -> (r: Result<&[u8], CryptoError>)
        ensures
            r matches Ok(bytes) && bytes@ == self@.encoded,
    {
        Ok(self.pkcs8.as_slice())
    }

    /// The key pair for what the provider generated: `generated` is the PKCS#8
    /// document, or `None` where it generated nothing. The document is taken
    /// over and erased on every path that does not end in a key pair. A
    /// document from which no key pair is built counts as a failed
    /// generation: the provider does not refuse what it generated itself, so
    /// only a failed random draw stands behind it.
    pub fn from_generated(alg: SignatureAlgorithm, generated: Option<Vec<u8>>) -> (r: Result<
        Self,
        CryptoError,
    >)
        ensures
            import_outcome(
                alg,
                Self::from_generated_spec(alg, generated_view(generated)),
                result_view(r),
            ),
    {
        let secret = match generation_result(generated) {
            Ok(pkcs8) => Ok(SecretBytes::from_vec(pkcs8)),
            Err(e) => Err(e),
        };
        if Self::ring_alg_from_alg(alg).is_err() {
            return Err(CryptoError::Unsupported);
        }
        match secret {
            Ok(pkcs8) => match Self::from_secret(alg, pkcs8) {
                Ok(kp) => Ok(kp),
                Err(_) => Err(CryptoError::RNGFailure),
            },
            Err(e) => Err(e),
        }
    }

    /// A fresh key pair, from the provider's random source.
    pub fn generate(alg: SignatureAlgorithm) -> (r: Result<Self, CryptoError>)
        ensures
            generate_outcome(alg.ecdsa_scheme() is Some, alg, result_view(r)),
    {
        let ring_alg = match Self::ring_alg_from_alg(alg) {
            Ok(ring_alg) => ring_alg,
            Err(e) => {
                return Err(e);
            },
        };
        let generated = ecdsa_generate_pkcs8(ring_alg);
        let r = Self::from_generated(alg, generated);
        match &r {
            Ok(kp) => {
                proof {
                    use_type_invariant(kp);
                }
            },
            Err(_) => {},
        }
        r
    }

    /// The algorithm that the key pair is for.
    pub fn alg(&self) -> (r: SignatureAlgorithm)
        ensures
            r == self@.alg,
    {
        self.alg
    }

    /// The raw public key.
    pub fn raw_public_key(&self) -> (r: &[u8])
        ensures
            r@ == self@.public_key,
    {
        self.public_key.as_slice()
    }
}

impl Clone for ECDSASignatureKeyPair {
    fn clone(&self) -> (r: Self)
        ensures
            r@ == self@,
    {
        proof {
            use_type_invariant(self);
        }
        ECDSASignatureKeyPair {
            alg: self.alg,
            pkcs8: self.pkcs8.clone(),
            public_key: slice_to_vec(self.public_key.as_slice()),
        }
    }
}

/// Makes ECDSA key pairs and stores them in a context.
#[derive(Clone, Copy, Debug)]
pub struct ECDSASignatureKeyPairBuilder {
    pub alg: SignatureAlgorithm,
}

impl ECDSASignatureKeyPairBuilder {
    /// A builder of key pairs under `alg`.
    pub fn new(alg: SignatureAlgorithm) -> (r: Self)
        ensures
            r.alg == alg,
    {
        ECDSASignatureKeyPairBuilder { alg }
    }

    /// What `import` gives as far as the bytes decide: `Unsupported` for any
    /// encoding but PKCS#8 and for an algorithm that is not of this family, and
    /// else what the bytes decide.
    pub open spec fn import_spec(
        alg: SignatureAlgorithm,
        encoded: Seq<u8>,
        encoding: KeyPairEncoding,
    ) -> Result<KeyPairView, CryptoError> {
        if encoding != KeyPairEncoding::PKCS8 {
            Err(CryptoError::Unsupported)
        } else {
            ECDSASignatureKeyPair::from_pkcs8_spec(alg, encoded)
        }
    }

    /// Generates a key pair and stores it in `ctx`. Where no key pair comes,
    /// `ctx` is left as it was.
    pub fn generate(&self, ctx: &mut CryptoCtx) -> (r: Result<Handle, CryptoError>)
        ensures
            match r {
                Ok(h) => {
                    &&& CryptoCtx::adds(*old(ctx), *final(ctx), h)
                    &&& final(ctx).key_pair(h) matches Some(kp)
                    &&& generate_outcome(self.alg.ecdsa_scheme() is Some, self.alg, Ok(kp))
                },
                Err(e) => {
                    &&& *final(ctx) == *old(ctx)
                    &&& generate_outcome(self.alg.ecdsa_scheme() is Some, self.alg, Err(e))
                },
            },
    {
        let kp = match ECDSASignatureKeyPair::generate(self.alg) {
            Ok(kp) => kp,
            Err(e) => {
                return Err(e);
            },
        };
        let handle = ctx.register_key_pair(SignatureKeyPair::ECDSA(kp));
        Ok(handle)
    }

    /// Builds the key pair that `encoded` holds in the form `encoding` and
    /// stores it in `ctx`. Where no key pair comes, `ctx` is left as it was.
    ///
    /// The result is what the bytes decide, except that the provider draws
    /// random bytes once it has accepted the document: where it gets none,
    /// the result is `RNGFailure`. `InvalidKey` comes exactly for a document
    /// that the provider refuses.
    pub fn import(&self, ctx: &mut CryptoCtx, encoded: &[u8], encoding: KeyPairEncoding) -> (r:
        Result<Handle, CryptoError>)
        ensures
            match r {
                Ok(h) => {
                    &&& CryptoCtx::adds(*old(ctx), *final(ctx), h)
                    &&& final(ctx).key_pair(h) matches Some(kp)
                    &&& import_outcome(
                        self.alg,
                        Self::import_spec(self.alg, encoded@, encoding),
                        Ok(kp),
                    )
                    &&& kp.valid()
                },
                Err(e) => {
                    &&& *final(ctx) == *old(ctx)
                    &&& import_outcome(
                        self.alg,
                        Self::import_spec(self.alg, encoded@, encoding),
                        Err(e),
                    )
                },
            },
    {
        match encoding {
            KeyPairEncoding::PKCS8 => {},
            _ => {
                return Err(CryptoError::Unsupported);
            },
        };
        let kp = match ECDSASignatureKeyPair::from_pkcs8(self.alg, encoded) {
            Ok(kp) => kp,
            Err(e) => {
                return Err(e);
            },
        };
        let handle = ctx.register_key_pair(SignatureKeyPair::ECDSA(kp));
        Ok(handle)
    }
}

/// Collects the bytes of a message and signs what it has collected.
///
/// Signing does not end the state: more bytes may follow, and each signature
/// is over all bytes fed so far.
pub struct ECDSASignatureState {
    pub kp: ECDSASignatureKeyPair,
    pub input: Vec<u8>,
}

impl View for ECDSASignatureState {
    type V = SigningStateView;

    open spec fn view(&self) -> SigningStateView {
        SigningStateView { key: self.kp@, input: self.input@ }
    }
}

/// The bytes of an ECDSA signature, `r || s` in fixed length. Two signatures
/// are equal where their bytes are.
#[derive(Debug)]
pub struct ECDSASignature(pub Vec<u8>);

impl Clone for ECDSASignature {
    fn clone(&self) -> (r: Self)
        ensures
            r@ == self@,
    {
        ECDSASignature(slice_to_vec(self.0.as_slice()))
    }
}

impl View for ECDSASignature {
    type V = Seq<u8>;

    open spec fn view(&self) -> Seq<u8> {
        self.0@
    }
}

impl PartialEq for ECDSASignature {
    fn eq(&self, other: &Self) -> (r: bool) {
        let r = self.0 == other.0;
        proof {
            assert(r == (self.0@ =~= other.0@));
        }
        r
    }
}

impl vstd::std_specs::cmp::PartialEqSpecImpl for ECDSASignature {
    open spec fn obeys_eq_spec() -> bool {
        true
    }

    open spec fn eq_spec(&self, other: &Self) -> bool {
        self@ == other@
    }
}

impl Eq for ECDSASignature {

}

impl AsRef<[u8]> for ECDSASignature {
    fn as_ref(&self) -> (r: &[u8])
        ensures
            r@ == self@,
    {
        self.0.as_slice()
    }
}

impl ECDSASignatureState {
    /// A state that signs with `kp` and has been fed nothing.
    pub fn new(kp: ECDSASignatureKeyPair) -> (r: Self)
        ensures
            r@ == (SigningStateView { key: kp@, input: Seq::<u8>::empty() }),
    {
        ECDSASignatureState { kp, input: Vec::new() }
    }

    /// Appends `input` to the bytes to be signed.
    pub fn update(&mut self, input: &[u8]) -> (r: Result<(), CryptoError>)
        ensures
            r is Ok,
            final(self)@ == old(self)@.update(input@),
    {
        self.input.extend_from_slice(input);
        assert(self.input@ =~= old(self).input@ + input@);
        Ok(())
    }

    /// A signature over all bytes fed so far.
    ///
    /// The provider draws a fresh nonce for every signature, so two calls on
    /// the same state need not return the same bytes. Each signature that comes
    /// back is one that verification accepts under the key pair's public key.
    /// Where none comes back, the provider got no random bytes, and the error
    /// is `RNGFailure`.
    pub fn sign(&self) -> (r: Result<ECDSASignature, CryptoError>)
        ensures
            match r {
                Ok(signature) => self@.signs(signature@),
                Err(e) => e == CryptoError::RNGFailure,
            },
    {
        proof {
            use_type_invariant(&self.kp);
        }
        let ring_alg = match ECDSASignatureKeyPair::ring_alg_from_alg(self.kp.alg) {
            Ok(ring_alg) => ring_alg,
            Err(_) => {
                return Err(CryptoError::SigningFailure);
            },
        };
        let signed = ecdsa_sign(ring_alg, self.kp.pkcs8.as_slice(), self.input.as_slice());
        match signing_result(signed) {
            Ok(signature) => Ok(ECDSASignature(signature)),
            Err(e) => Err(e),
        }
    }
}

/// A raw public key with the algorithm it is meant for. The bytes are not
/// looked at before a signature is verified with them.
#[derive(Debug)]
pub struct ECDSASignaturePublicKey {
    pub alg: SignatureAlgorithm,
    pub raw: Vec<u8>,
}

impl Clone for ECDSASignaturePublicKey {
    fn clone(&self) -> (r: Self)
        ensures
            r.alg == self.alg,
            r.raw@ == self.raw@,
    {
        ECDSASignaturePublicKey { alg: self.alg, raw: slice_to_vec(self.raw.as_slice()) }
    }
}

impl ECDSASignaturePublicKey {
    /// The public key with the bytes `raw`, meant for `alg`. It never fails.
    pub fn from_raw(alg: SignatureAlgorithm, raw: &[u8]) -> (r: Result<Self, CryptoError>)
        ensures
            r matches Ok(pk) && pk.alg == alg && pk.raw@ == raw@,
    {
        let pk = ECDSASignaturePublicKey { alg, raw: slice_to_vec(raw) };
        Ok(pk)
    }

    /// The bytes of the key, as they were given. It never fails.
    pub fn as_raw(&self) -> (r: Result<&[u8], CryptoError>)
        ensures
            r matches Ok(bytes) && bytes@ == self.raw@,
    {
        Ok(self.raw.as_slice())
    }
}

/// Collects the bytes of a message and checks signatures against what it has
/// collected.
#[derive(Debug)]
pub struct ECDSASignatureVerificationState {
    pub pk: ECDSASignaturePublicKey,
    pub input: Vec<u8>,
}

impl View for ECDSASignatureVerificationState {
    type V = VerificationStateView;

    open spec fn view(&self) -> VerificationStateView {
        VerificationStateView { alg: self.pk.alg, public_key: self.pk.raw@, input: self.input@ }
    }
}

impl ECDSASignatureVerificationState {
    /// A state that verifies against `pk` and has been fed nothing.
    pub fn new(pk: ECDSASignaturePublicKey) -> (r: Self)
        ensures
            r@ == (VerificationStateView {
                alg: pk.alg,
                public_key: pk.raw@,
                input: Seq::<u8>::empty(),
            }),
    {
        ECDSASignatureVerificationState { pk, input: Vec::new() }
    }

    /// Appends `input` to the bytes that a signature is checked against.
    pub fn update(&mut self, input: &[u8]) -> (r: Result<(), CryptoError>)
        ensures
            r is Ok,
            final(self)@ == old(self)@.update(input@),
    {
        self.input.extend_from_slice(input);
        assert(self.input@ =~= old(self).input@ + input@);
        Ok(())
    }

    /// Checks `signature` against the public key and all bytes fed so far.
    ///
    /// A public key for another algorithm than ECDSA gives `Unsupported`. Else
    /// the result is `Ok` where the provider accepts the signature and
    /// `VerificationFailed` where it does not, whatever the reason.
    pub fn verify(&self, signature: &ECDSASignature) -> (r: Result<(), CryptoError>)
        ensures
            r == (if self@.alg.ecdsa_scheme() is Some {
                self@.verdict(signature@)
            } else {
                Err(CryptoError::Unsupported)
            }),
    {
        let ring_alg = match ECDSASignatureKeyPair::ring_alg_from_alg(self.pk.alg) {
            Ok(ring_alg) => ring_alg,
            Err(e) => {
                return Err(e);
            },
        };
        verification_result(
            verify_signature(
                ring_alg.verification(),
                self.pk.raw.as_slice(),
                self.input.as_slice(),
                signature.0.as_slice(),
            ),
        )
    }
}

} // verus!

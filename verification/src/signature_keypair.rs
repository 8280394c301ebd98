use crate::ecdsa::ECDSASignatureKeyPair;
use crate::eddsa::EdDSASignatureKeyPair;
use crate::error::CryptoError;
use crate::signature::{provider_public_key, SignatureAlgorithm, SignatureFamily};
use vstd::prelude::*;
use vstd::slice::slice_to_vec;

verus! {

/// The forms in which a caller may hand over a key pair. Only `PKCS8` is
/// implemented.
#[derive(Clone, Copy, Debug, PartialEq, Eq, Structural)]
pub enum KeyPairEncoding {
    Raw,
    PKCS8,
    DER,
    PEM,
}

/// The model of a key pair: its algorithm, the encoded private key and the raw
/// public key.
pub struct KeyPairView {
    pub alg: SignatureAlgorithm,
    pub encoded: Seq<u8>,
    pub public_key: Seq<u8>,
}

impl KeyPairView {
    /// The encoded private key and the public key describe the same key: the
    /// provider accepts the encoding under the algorithm and derives exactly
    /// this public key from it, in the length of the algorithm's public keys.
    pub open spec fn valid(self) -> bool {
        &&& provider_public_key(self.alg, self.encoded) == Some(self.public_key)
        &&& self.public_key.len() == self.alg.public_key_len()
    }
}

/// A key pair of either family.
pub enum SignatureKeyPair {
    ECDSA(ECDSASignatureKeyPair),
    EdDSA(EdDSASignatureKeyPair),
}

impl View for SignatureKeyPair {
    type V = KeyPairView;

    open spec fn view(&self) -> KeyPairView {
        match self {
            SignatureKeyPair::ECDSA(kp) => kp@,
            SignatureKeyPair::EdDSA(kp) => kp@,
        }
    }
}

impl SignatureKeyPair {
    /// A copy of the encoded private key, byte for byte as it was given or
    /// generated. The bytes belong to a key that the provider accepts.
    pub fn export(&self) -> (r: Vec<u8>)
        ensures
            r@ == self@.encoded,
            self@.valid(),
    {
        let bytes = match self {
            SignatureKeyPair::ECDSA(kp) => {
                proof {
                    use_type_invariant(kp);
                }
                kp.as_pkcs8().unwrap()
            },
            SignatureKeyPair::EdDSA(kp) => {
                proof {
                    use_type_invariant(kp);
                }
                kp.as_pkcs8().unwrap()
            },
        };
        slice_to_vec(bytes)
    }

    /// The raw public key, as the provider derived it when the key pair was
    /// made.
    pub fn raw_public_key(&self) -> (r: &[u8])
        ensures
            r@ == self@.public_key,
            self@.valid(),
    {
        match self {
            SignatureKeyPair::ECDSA(kp) => {
                proof {
                    use_type_invariant(kp);
                }
                kp.raw_public_key()
            },
            SignatureKeyPair::EdDSA(kp) => {
                proof {
                    use_type_invariant(kp);
                }
                kp.raw_public_key()
            },
        }
    }
}

impl Clone for SignatureKeyPair {
    fn clone(&self) -> (r: Self)
        ensures
            r@ == self@,
            r is EdDSA <==> self is EdDSA,
    {
        match self {
            SignatureKeyPair::ECDSA(kp) => SignatureKeyPair::ECDSA(kp.clone()),
            SignatureKeyPair::EdDSA(kp) => SignatureKeyPair::EdDSA(kp.clone()),
        }
    }
}

/// A result with the model of its value in place of the value.
pub open spec fn result_view<T: View>(r: Result<T, CryptoError>) -> Result<T::V, CryptoError> {
    match r {
        Ok(value) => Ok(value@),
        Err(e) => Err(e),
    }
}

/// The model of what a generation by the provider returned: the bytes of the
/// document, or `None` where it failed.
pub open spec fn generated_view(generated: Option<Vec<u8>>) -> Option<Seq<u8>> {
    match generated {
        Some(pkcs8) => Some(pkcs8@),
        None => None,
    }
}

/// What importing `encoded` under `alg` gives, as far as the bytes decide it:
/// `Unsupported` for any encoding but PKCS#8, `InvalidKey` where the provider
/// rejects the bytes, and else the key pair with the public key that the
/// provider derives.
pub open spec fn import_spec(
    alg: SignatureAlgorithm,
    encoded: Seq<u8>,
    encoding: KeyPairEncoding,
) -> Result<KeyPairView, CryptoError> {
    if encoding != KeyPairEncoding::PKCS8 {
        Err(CryptoError::Unsupported)
    } else {
        match provider_public_key(alg, encoded) {
            Some(public_key) => Ok(KeyPairView { alg, encoded, public_key }),
            None => Err(CryptoError::InvalidKey),
        }
    }
}

/// Whether generating a key pair under `alg` may return `actual`, in a family
/// that implements `alg` exactly where `implemented` holds.
///
/// A key pair that comes back is for `alg`, and its public key is the one that
/// the provider derives from its encoded key. The provider draws the key at
/// random, so which key it is, and whether one comes, is not determined; where
/// none comes under an algorithm of the family, the error is `RNGFailure`.
pub open spec fn generate_outcome(
    implemented: bool,
    alg: SignatureAlgorithm,
    actual: Result<KeyPairView, CryptoError>,
) -> bool {
    match actual {
        Ok(key_pair) => implemented && key_pair.alg == alg && key_pair.valid(),
        Err(e) => e == (if implemented {
            CryptoError::RNGFailure
        } else {
            CryptoError::Unsupported
        }),
    }
}

/// Whether importing may return `actual` where the bytes decide `expected`.
///
/// Under Ed25519 the bytes decide everything. Under ECDSA the provider draws
/// random bytes once it has accepted the document, and the import fails with
/// `RNGFailure` where it gets none. `InvalidKey` comes for a document that the
/// provider refuses, and for no other.
pub open spec fn import_outcome(
    alg: SignatureAlgorithm,
    expected: Result<KeyPairView, CryptoError>,
    actual: Result<KeyPairView, CryptoError>,
) -> bool {
    ||| actual == expected
    ||| {
        &&& alg.family() == SignatureFamily::ECDSA
        &&& expected is Ok
        &&& actual == Err::<KeyPairView, CryptoError>(CryptoError::RNGFailure)
    }
}

/// Exporting a key pair and importing the bytes again, under the same
/// algorithm, gives the same key pair: the same encoded key and the same
/// public key. Under Ed25519 the import always succeeds. Under ECDSA it can
/// fail, as `RNGFailure`, where the provider gets no random bytes, and in no
/// other way.
pub proof fn lemma_export_import_roundtrip(
    key_pair: KeyPairView,
    imported: Result<KeyPairView, CryptoError>,
)
    requires
        key_pair.valid(),
        import_outcome(
            key_pair.alg,
            import_spec(key_pair.alg, key_pair.encoded, KeyPairEncoding::PKCS8),
            imported,
        ),
    ensures
        imported == Ok::<KeyPairView, CryptoError>(key_pair) || {
            &&& key_pair.alg != SignatureAlgorithm::Ed25519
            &&& imported == Err::<KeyPairView, CryptoError>(CryptoError::RNGFailure)
        },
{
}

} // verus!

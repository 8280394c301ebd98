use crate::error::CryptoError;
use crate::handles::{Handle, HandleRegistry};
use crate::signature::{
    SignatureAlgorithm, SignatureFamily, SignatureState, SignatureVerificationState,
    SigningStateView, VerificationStateView,
};
use crate::ecdsa::ECDSASignatureKeyPairBuilder;
use crate::eddsa::EdDSASignatureKeyPairBuilder;
use crate::signature_keypair::{
    generate_outcome, import_outcome, import_spec, KeyPairEncoding, KeyPairView,
    SignatureKeyPair,
};
use vstd::prelude::*;
use vstd::slice::slice_to_vec;

verus! {

/// What a handle of a context names.
pub enum Referent {
    KeyPair(SignatureKeyPair),
    SigningState(SignatureState),
    VerificationState(SignatureVerificationState),
}

/// The registry of all live key pairs and states, and the operations that
/// callers perform on them by handle. Callers see handles and bytes, nothing
/// else.
pub struct CryptoCtx {
    pub handles: HandleRegistry<Referent>,
}

impl CryptoCtx {
    /// The key pair that `h` names, if `h` is live and names a key pair.
    pub open spec fn key_pair(self, h: Handle) -> Option<KeyPairView> {
        if self.handles@.contains_key(h) {
            match self.handles@[h] {
                Referent::KeyPair(kp) => Some(kp@),
                _ => None,
            }
        } else {
            None
        }
    }

    /// The signing state that `h` names, if `h` is live and names one.
    pub open spec fn signing_state(self, h: Handle) -> Option<SigningStateView> {
        if self.handles@.contains_key(h) {
            match self.handles@[h] {
                Referent::SigningState(state) => Some(state@),
                _ => None,
            }
        } else {
            None
        }
    }

    /// The verification state that `h` names, if `h` is live and names one.
    pub open spec fn verification_state(self, h: Handle) -> Option<VerificationStateView> {
        if self.handles@.contains_key(h) {
            match self.handles@[h] {
                Referent::VerificationState(state) => Some(state@),
                _ => None,
            }
        } else {
            None
        }
    }

    /// Whether `h` names a verification state of the family that implements
    /// the algorithm of its public key. It holds of every state that
    /// `open_verification_state` opens.
    pub open spec fn well_matched(self, h: Handle) -> bool {
        self.handles@.contains_key(h) && (match self.handles@[h] {
            Referent::VerificationState(state) => state.well_matched(),
            _ => false,
        })
    }

    /// `after` is `before` with one more object, under the handle `h`, which
    /// `before` had never minted. Every other handle names what it named.
    pub open spec fn adds(before: Self, after: Self, h: Handle) -> bool {
        HandleRegistry::registers(before.handles, after.handles, after.handles@[h], h)
    }

    /// `after` is `before` but for the object under the live handle `h`. Every
    /// other handle names what it named.
    pub open spec fn changes(before: Self, after: Self, h: Handle) -> bool {
        HandleRegistry::replaces(before.handles, after.handles, h, after.handles@[h])
    }

    /// What one operation may do to a context: `after` holds and has minted
    /// what `before` did, or comes from it by one registration, one change of
    /// an object in place, or one release.
    pub open spec fn evolves(before: Self, after: Self) -> bool {
        HandleRegistry::steps(before.handles, after.handles)
    }

    /// A context that holds nothing.
    pub fn new() -> (r: Self)
        ensures
            r.handles@ == Map::<Handle, Referent>::empty(),
            r.handles.issued() == Set::<Handle>::empty(),
    {
        CryptoCtx { handles: HandleRegistry::new() }
    }

    /// Stores `kp` and returns its handle.
    pub fn register_key_pair(&mut self, kp: SignatureKeyPair) -> (h: Handle)
        ensures
            Self::evolves(*old(self), *final(self)),
            Self::adds(*old(self), *final(self), h),
            final(self).key_pair(h) == Some(kp@),
    {
        self.handles.register(Referent::KeyPair(kp))
    }

    /// Generates a key pair under `alg` and returns its handle. Where no key
    /// pair comes, the context is left as it was.
    pub fn build_key_pair(&mut self, alg: SignatureAlgorithm) -> (r: Result<Handle, CryptoError>)
        ensures
            Self::evolves(*old(self), *final(self)),
            match r {
                Ok(h) => {
                    &&& Self::adds(*old(self), *final(self), h)
                    &&& final(self).key_pair(h) matches Some(kp)
                    &&& generate_outcome(true, alg, Ok(kp))
                },
                Err(e) => {
                    &&& *final(self) == *old(self)
                    &&& generate_outcome(true, alg, Err(e))
                },
            },
    {
        match alg.family() {
            SignatureFamily::ECDSA => ECDSASignatureKeyPairBuilder::new(alg).generate(self),
            SignatureFamily::EdDSA => EdDSASignatureKeyPairBuilder::new(alg).generate(self),
        }
    }

    /// Builds the key pair that `encoded` holds in the form `encoding`, under
    /// `alg`, and returns its handle. Where no key pair comes, the context is
    /// left as it was.
    ///
    /// Any encoding but PKCS#8 gives `Unsupported`; bytes that the provider
    /// refuses give `InvalidKey`, and no other bytes do. Under Ed25519 every
    /// other import succeeds. Under ECDSA the provider draws random bytes once
    /// it has accepted the bytes, and where it gets none the import fails with
    /// `RNGFailure`.
    pub fn import_key_pair(
        &mut self,
        alg: SignatureAlgorithm,
        encoded: &[u8],
        encoding: KeyPairEncoding,
    ) -> (r: Result<Handle, CryptoError>)
        ensures
            Self::evolves(*old(self), *final(self)),
            match r {
                Ok(h) => {
                    &&& Self::adds(*old(self), *final(self), h)
                    &&& final(self).key_pair(h) matches Some(kp)
                    &&& import_outcome(alg, import_spec(alg, encoded@, encoding), Ok(kp))
                    &&& kp.valid()
                },
                Err(e) => {
                    &&& *final(self) == *old(self)
                    &&& import_outcome(alg, import_spec(alg, encoded@, encoding), Err(e))
                },
            },
    {
        match alg.family() {
            SignatureFamily::ECDSA => ECDSASignatureKeyPairBuilder::new(alg).import(
                self,
                encoded,
                encoding,
            ),
            SignatureFamily::EdDSA => EdDSASignatureKeyPairBuilder::new(alg).import(
                self,
                encoded,
                encoding,
            ),
        }
    }

    /// The encoded private key of the key pair that `h` names, byte for byte
    /// as it was imported or generated.
    pub fn export_key_pair(&self, h: Handle) -> (r: Result<Vec<u8>, CryptoError>)
        ensures
            match r {
                Ok(encoded) => {
                    &&& self.key_pair(h) matches Some(kp)
                    &&& encoded@ == kp.encoded
                    &&& kp.valid()
                },
                Err(e) => e == CryptoError::InvalidHandle && self.key_pair(h) is None,
            },
    {
        match self.handles.get(h) {
            Ok(Referent::KeyPair(kp)) => Ok(kp.export()),
            _ => Err(CryptoError::InvalidHandle),
        }
    }

    /// The raw public key of the key pair that `h` names.
    pub fn public_key_of(&self, h: Handle) -> (r: Result<Vec<u8>, CryptoError>)
        ensures
            match r {
                Ok(public_key) => {
                    &&& self.key_pair(h) matches Some(kp)
                    &&& public_key@ == kp.public_key
                    &&& kp.valid()
                },
                Err(e) => e == CryptoError::InvalidHandle && self.key_pair(h) is None,
            },
    {
        match self.handles.get(h) {
            Ok(Referent::KeyPair(kp)) => Ok(slice_to_vec(kp.raw_public_key())),
            _ => Err(CryptoError::InvalidHandle),
        }
    }

    /// Opens a signing state on the key pair that `h` names and returns the
    /// state's handle. The state has its own share of the key pair: it stays
    /// usable when `h` is closed.
    pub fn open_signing_state(&mut self, h: Handle) -> (r: Result<Handle, CryptoError>)
        ensures
            Self::evolves(*old(self), *final(self)),
            match r {
                Ok(state) => {
                    &&& old(self).key_pair(h) matches Some(kp)
                    &&& Self::adds(*old(self), *final(self), state)
                    &&& final(self).signing_state(state) == Some(
                        SigningStateView { key: kp, input: Seq::<u8>::empty() },
                    )
                },
                Err(e) => {
                    &&& e == CryptoError::InvalidHandle
                    &&& old(self).key_pair(h) is None
                    &&& *final(self) == *old(self)
                },
            },
    {
        let kp = match self.handles.get(h) {
            Ok(Referent::KeyPair(kp)) => kp.clone(),
            _ => {
                return Err(CryptoError::InvalidHandle);
            },
        };
        Ok(self.handles.register(Referent::SigningState(SignatureState::open(kp))))
    }

    /// Appends `input` to the bytes of the signing state that `h` names.
    pub fn sign_update(&mut self, h: Handle, input: &[u8]) -> (r: Result<(), CryptoError>)
        ensures
            Self::evolves(*old(self), *final(self)),
            match r {
                Ok(()) => {
                    &&& old(self).signing_state(h) matches Some(state)
                    &&& Self::changes(*old(self), *final(self), h)
                    &&& final(self).signing_state(h) == Some(state.update(input@))
                },
                Err(e) => {
                    &&& e == CryptoError::InvalidHandle
                    &&& old(self).signing_state(h) is None
                    &&& *final(self) == *old(self)
                },
            },
    {
        match self.handles.get(h) {
            Ok(Referent::SigningState(_)) => {},
            _ => {
                return Err(CryptoError::InvalidHandle);
            },
        }
        let r = match self.handles.get_mut(h) {
            Ok(Referent::SigningState(state)) => state.update(input),
            _ => Err(CryptoError::InvalidHandle),
        };
        assert(Self::changes(*old(self), *self, h));
        r
    }

    /// A signature over all bytes fed to the signing state that `h` names.
    /// The state stays open and unchanged.
    ///
    /// Under Ed25519 this never fails on a signing state, and the signature is
    /// the one that the key and the bytes determine. Under ECDSA it is one of
    /// many that verification accepts, and the call fails with `RNGFailure`
    /// where the provider gets no random bytes.
    pub fn sign_finalize(&self, h: Handle) -> (r: Result<Vec<u8>, CryptoError>)
        ensures
            match r {
                Ok(signature) => {
                    &&& self.signing_state(h) matches Some(state)
                    &&& state.signs(signature@)
                },
                Err(e) => match self.signing_state(h) {
                    Some(state) => e == CryptoError::RNGFailure && state.key.alg
                        != SignatureAlgorithm::Ed25519,
                    None => e == CryptoError::InvalidHandle,
                },
            },
    {
        match self.handles.get(h) {
            Ok(Referent::SigningState(state)) => state.sign(),
            _ => Err(CryptoError::InvalidHandle),
        }
    }

    /// Opens a verification state under `alg` on the raw public key
    /// `public_key` and returns the state's handle. The key is not looked at
    /// before a signature is verified with it.
    pub fn open_verification_state(&mut self, alg: SignatureAlgorithm, public_key: &[u8]) -> (r:
        Result<Handle, CryptoError>)
        ensures
            Self::evolves(*old(self), *final(self)),
            r matches Ok(state) && Self::adds(*old(self), *final(self), state)
                && final(self).verification_state(state) == Some(
                VerificationStateView { alg, public_key: public_key@, input: Seq::<u8>::empty() },
            ) && final(self).well_matched(state),
    {
        let state = SignatureVerificationState::open(alg, public_key);
        Ok(self.handles.register(Referent::VerificationState(state)))
    }

    /// Appends `input` to the bytes of the verification state that `h` names.
    pub fn verify_update(&mut self, h: Handle, input: &[u8]) -> (r: Result<(), CryptoError>)
        ensures
            Self::evolves(*old(self), *final(self)),
            match r {
                Ok(()) => {
                    &&& old(self).verification_state(h) matches Some(state)
                    &&& Self::changes(*old(self), *final(self), h)
                    &&& final(self).verification_state(h) == Some(state.update(input@))
                    &&& final(self).well_matched(h) == old(self).well_matched(h)
                },
                Err(e) => {
                    &&& e == CryptoError::InvalidHandle
                    &&& old(self).verification_state(h) is None
                    &&& *final(self) == *old(self)
                },
            },
    {
        match self.handles.get(h) {
            Ok(Referent::VerificationState(_)) => {},
            _ => {
                return Err(CryptoError::InvalidHandle);
            },
        }
        let r = match self.handles.get_mut(h) {
            Ok(Referent::VerificationState(state)) => state.update(input),
            _ => Err(CryptoError::InvalidHandle),
        };
        assert(Self::changes(*old(self), *self, h));
        r
    }

    /// Checks `signature` against the public key and the bytes of the
    /// verification state that `h` names. The state stays open and unchanged.
    ///
    /// The result is `Ok` where the provider accepts the signature and
    /// `VerificationFailed` where it does not; nothing tells a wrong signature
    /// from a changed message or from another key. A state that was built,
    /// outside this context, on a key for an algorithm of the other family
    /// gives `Unsupported`.
    pub fn verify_finalize(&self, h: Handle, signature: &[u8]) -> (r: Result<(), CryptoError>)
        ensures
            r == (match self.verification_state(h) {
                Some(state) => if self.well_matched(h) {
                    state.verdict(signature@)
                } else {
                    Err(CryptoError::Unsupported)
                },
                None => Err(CryptoError::InvalidHandle),
            }),
    {
        match self.handles.get(h) {
            Ok(Referent::VerificationState(state)) => state.verify(signature),
            _ => Err(CryptoError::InvalidHandle),
        }
    }

    /// Releases `h`, whatever it names. The object is dropped, and with a key
    /// pair its encoded private key is erased, before the call returns. `h` is
    /// never valid again: a second call fails with `InvalidHandle`.
    pub fn close_handle(&mut self, h: Handle) -> (r: Result<(), CryptoError>)
        ensures
            Self::evolves(*old(self), *final(self)),
            match r {
                Ok(()) => HandleRegistry::releases(old(self).handles, final(self).handles, h),
                Err(e) => {
                    &&& e == CryptoError::InvalidHandle
                    &&& !old(self).handles@.contains_key(h)
                    &&& *final(self) == *old(self)
                },
            },
    {
        self.handles.close(h)
    }
}

} // verus!

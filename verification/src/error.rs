use crate::provider::{KeyOutcome, SignOutcome};
use vstd::prelude::*;

verus! {

/// The kinds of failure that the operations of this library report.
///
/// Every failure of the signature provider is turned into one of these before it
/// reaches a caller; nothing more specific is ever handed out.
#[derive(Clone, Copy, Debug, PartialEq, Eq, Structural)]
pub enum CryptoError {
    /// The handle is unknown to the registry, was released, or names an object
    /// of another kind than the operation works on.
    InvalidHandle,
    /// The algorithm or the key encoding is not one that the family implements.
    Unsupported,
    /// The provider rejected the encoded key.
    InvalidKey,
    /// The provider could not draw the random bytes that it needs.
    RNGFailure,
    /// The provider refused what it was given to sign with.
    SigningFailure,
    /// The signature does not match the key and the message. Nothing tells a
    /// wrong signature from a changed message or from another key.
    VerificationFailed,
}

/// The provider reports a failure without a cause. Which kind of error a
/// failure becomes follows from the call that failed, and from nothing else;
/// the four functions below are the whole of that rule.
///
/// This one is for generating a key: the generated document, or `RNGFailure`
/// where the provider generated none.
pub fn generation_result(generated: Option<Vec<u8>>) -> (r: Result<Vec<u8>, CryptoError>)
    ensures
        r == (match generated {
            Some(document) => Ok(document),
            None => Err(CryptoError::RNGFailure),
        }),
{
    match generated {
        Some(document) => Ok(document),
        None => Err(CryptoError::RNGFailure),
    }
}

/// For building a key pair from an encoded key: the public key that the
/// provider derived, `InvalidKey` where it refused the document, and
/// `RNGFailure` where it accepted the document and got no random bytes.
pub fn parsing_result(derived: KeyOutcome) -> (r: Result<Vec<u8>, CryptoError>)
    ensures
        r == (match derived {
            KeyOutcome::Key(public_key) => Ok(public_key),
            KeyOutcome::Rejected => Err(CryptoError::InvalidKey),
            KeyOutcome::NoRandomness => Err(CryptoError::RNGFailure),
        }),
{
    match derived {
        KeyOutcome::Key(public_key) => Ok(public_key),
        KeyOutcome::Rejected => Err(CryptoError::InvalidKey),
        KeyOutcome::NoRandomness => Err(CryptoError::RNGFailure),
    }
}

/// For signing: the signature that the provider made, `RNGFailure` where it
/// got no random bytes, and `SigningFailure` where it refused what it was
/// given to sign with.
pub fn signing_result(signed: SignOutcome) -> (r: Result<Vec<u8>, CryptoError>)
    ensures
        r == (match signed {
            SignOutcome::Signature(signature) => Ok(signature),
            SignOutcome::KeyRejected => Err(CryptoError::SigningFailure),
            SignOutcome::NoRandomness => Err(CryptoError::RNGFailure),
        }),
{
    match signed {
        SignOutcome::Signature(signature) => Ok(signature),
        SignOutcome::KeyRejected => Err(CryptoError::SigningFailure),
        SignOutcome::NoRandomness => Err(CryptoError::RNGFailure),
    }
}

/// For verifying: `Ok` where the provider accepted the signature, and
/// `VerificationFailed` where it did not. Nothing tells a wrong signature from
/// a changed message or from another key.
pub fn verification_result(accepted: bool) -> (r: Result<(), CryptoError>)
    ensures
        r == (if accepted {
            Ok(())
        } else {
            Err(CryptoError::VerificationFailed)
        }),
{
    if accepted {
        Ok(())
    } else {
        Err(CryptoError::VerificationFailed)
    }
}

} // verus!

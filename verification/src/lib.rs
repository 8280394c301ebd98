//! Digital signatures behind handles.
//!
//! A [`context::CryptoCtx`] owns key pairs, signing states and verification
//! states and names each by a [`handles::Handle`]. Callers generate or import
//! a key pair, open a state on it, feed the message in pieces, and finalize to
//! a signature or to a verdict; they see handles and bytes, never key
//! material in another form. Two families of schemes are served through the
//! same operations: Ed25519 ([`eddsa`]) and ECDSA over P-256 and P-384
//! ([`ecdsa`]).
//!
//! The arithmetic of the schemes is `ring`'s. What is taken on trust about it
//! is stated in [`provider`], and nowhere else; the erasure of private keys
//! is `zeroize`'s, behind [`secret::SecretBytes`]. Everything else is proved:
//! what each operation returns and changes, on which inputs it fails and
//! with which error, that a handle is never minted twice and never valid
//! again once it was closed, that an exported key imports to the same key
//! pair, that feeding a message in pieces is feeding it at once, and that a
//! signature which finalizing returned is one which verification accepts.

pub mod context;
pub mod ecdsa;
pub mod eddsa;
pub mod error;
pub mod handles;
pub mod provider;
pub mod secret;
pub mod signature;
pub mod signature_keypair;

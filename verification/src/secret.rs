use vstd::prelude::*;
use vstd::slice::slice_to_vec;

verus! {

/// Calls `zeroize::Zeroize::zeroize` on the vector, which overwrites its
/// elements and its spare capacity with zeros and then clears it. Claimed: the
/// vector is empty afterwards. That the memory was overwritten is not something
/// a contract can say; it is what the call is made for.
#[verifier::external_body]
fn wipe(bytes: &mut Vec<u8>)
    ensures
        final(bytes)@ == Seq::<u8>::empty(),
    opens_invariants none
    no_unwind
{
    zeroize::Zeroize::zeroize(bytes);
}

/// Bytes that must not outlive their owner: the storage is overwritten with
/// zeros when the value is dropped, on every path, once.
pub struct SecretBytes {
    bytes: Vec<u8>,
}

impl View for SecretBytes {
    type V = Seq<u8>;

    closed spec fn view(&self) -> Seq<u8> {
        self.bytes@
    }
}

impl SecretBytes {
    /// A copy of `bytes` that erases itself when dropped.
    pub fn new(bytes: &[u8]) -> (r: Self)
        ensures
            r@ == bytes@,
    {
        SecretBytes { bytes: slice_to_vec(bytes) }
    }

    /// Takes `bytes` over, without copying them, and erases them when dropped.
    pub fn from_vec(bytes: Vec<u8>) -> (r: Self)
        ensures
            r@ == bytes@,
    {
        SecretBytes { bytes }
    }

    /// The bytes, as they were given.
    pub fn as_slice(&self) -> (r: &[u8])
        ensures
            r@ == self@,
    {
        self.bytes.as_slice()
    }

    /// Overwrites the bytes with zeros and leaves the value empty.
    pub fn erase(&mut self)
        ensures
            final(self)@ == Seq::<u8>::empty(),
        opens_invariants none
        no_unwind
    {
        wipe(&mut self.bytes);
    }
}

impl Clone for SecretBytes {
    fn clone(&self) -> (r: Self)
        ensures
            r@ == self@,
    {
        SecretBytes::new(self.as_slice())
    }
}

impl Drop for SecretBytes {
    fn drop(&mut self)
        opens_invariants none
        no_unwind
    {
        self.erase();
    }
}

} // verus!

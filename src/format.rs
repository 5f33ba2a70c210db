//! The transmitted encapsulation value.
use vstd::prelude::*;
use vstd::slice::slice_to_vec;

verus! {

/// The wire encapsulation value: the bytes a recipient needs, with its secret
/// key, to recover the shared secret. Any byte string can be held; recipients
/// reject every length but the hybrid ciphertext's.
#[derive(Clone)]
pub struct Enc {
    bytes: Vec<u8>,
}

impl View for Enc {
    type V = Seq<u8>;

    closed spec fn view(&self) -> Seq<u8> {
        self.bytes@
    }
}

impl Enc {
    /// Wraps a copy of `data`.
    pub fn new(data: &[u8]) -> (r: Enc)
        ensures
            r@ == data@,
    {
        Enc { bytes: slice_to_vec(data) }
    }

    /// The held bytes.
    pub fn to_bytes(&self) -> (r: &[u8])
        ensures
            r@ == self@,
    {
        self.bytes.as_slice()
    }
}

} // verus!

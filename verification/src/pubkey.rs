//! 32-byte account addresses, the identifiers that the codec reads and
//! writes as raw byte runs.

use vstd::prelude::*;
use vstd::slice::slice_to_vec;

verus! {

/// The number of bytes in a public key.
pub const PUBKEY_BYTES: usize = 32;

/// A 32-byte public key, held as its raw bytes.
#[derive(Debug, PartialEq, Eq)]
pub struct Pubkey {
    pub bytes: Vec<u8>,
}

impl View for Pubkey {
    type V = Seq<u8>;

    open spec fn view(&self) -> Seq<u8> {
        self.bytes@
    }
}

impl Pubkey {
    /// A key is well formed when it holds exactly 32 bytes; every
    /// constructor establishes this.
    pub open spec fn wf(&self) -> bool {
        self@.len() == PUBKEY_BYTES
    }

    /// Wraps 32 raw bytes as a key.
    pub fn new(bytes: Vec<u8>) -> (r: Pubkey)
        requires
            bytes@.len() == PUBKEY_BYTES,
        ensures
            r@ == bytes@,
            r.wf(),
    {
        Pubkey { bytes }
    }

    /// The key's raw bytes.
    pub fn as_bytes(&self) -> (r: &Vec<u8>)
        ensures
            r@ == self@,
    {
        &self.bytes
    }
}

impl Clone for Pubkey {
    fn clone(&self) -> (r: Self)
        ensures
            r@ == self@,
    {
        Pubkey { bytes: slice_to_vec(self.bytes.as_slice()) }
    }
}

} // verus!

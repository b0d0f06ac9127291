use vstd::prelude::*;

verus! {

/// A non-negative number of bytes.
#[derive(Clone, Copy, Debug, PartialEq, Eq, Structural)]
pub struct ByteCount(u64);

impl View for ByteCount {
    type V = nat;

    closed spec fn view(&self) -> nat {
        self.0 as nat
    }
}

impl ByteCount {
    /// A count of `bytes` bytes.
    pub fn new(bytes: u64) -> (r: ByteCount)
        ensures
            r@ == bytes as nat,
    {
        ByteCount(bytes)
    }

    /// The count of zero bytes.
    pub fn zero() -> (r: ByteCount)
        ensures
            r@ == 0,
    {
        ByteCount(0)
    }

    /// The number of bytes.
    pub fn get_bytes(&self) -> (r: u64)
        ensures
            r as nat == self@,
    {
        self.0
    }

    /// The sum of two counts; the sum must fit in 64 bits.
    pub fn add_bytes(self, other: ByteCount) -> (r: ByteCount)
        requires
            self@ + other@ <= u64::MAX,
        ensures
            r@ == self@ + other@,
    {
        ByteCount(self.0 + other.0)
    }
}

impl Default for ByteCount {
    fn default() -> (r: ByteCount)
        ensures
            r@ == 0,
    {
        ByteCount(0)
    }
}

} // verus!

use vstd::prelude::*;

use crate::byte_count::ByteCount;

verus! {

/// What a `StoreSpaceUsage` holds.
pub struct StoreView {
    pub data: nat,
    pub offsets: nat,
}

impl StoreView {
    /// The two parts add up to a count that fits in 64 bits.
    pub open spec fn wf(self) -> bool {
        self.data + self.offsets <= u64::MAX
    }

    /// Bytes used by the whole store.
    pub open spec fn total(self) -> nat {
        self.data + self.offsets
    }
}

/// Space used by the document store: the compressed documents, and the
/// offsets that locate the start of each block.
#[derive(Debug)]
pub struct StoreSpaceUsage {
    data: ByteCount,
    offsets: ByteCount,
}

impl View for StoreSpaceUsage {
    type V = StoreView;

    closed spec fn view(&self) -> StoreView {
        StoreView { data: self.data@, offsets: self.offsets@ }
    }
}

impl StoreSpaceUsage {
    /// The two parts add up to a count that fits in 64 bits.
    pub open spec fn wf(&self) -> bool {
        self@.wf()
    }

    /// A store of `data` bytes of documents and `offsets` bytes of offsets.
    pub fn new(data: ByteCount, offsets: ByteCount) -> (r: StoreSpaceUsage)
        requires
            data@ + offsets@ <= u64::MAX,
        ensures
            r.wf(),
            r@ == (StoreView { data: data@, offsets: offsets@ }),
    {
        StoreSpaceUsage { data, offsets }
    }

    /// Bytes used by the compressed documents.
    pub fn data_usage(&self) -> (r: ByteCount)
        ensures
            r@ == self@.data,
    {
        self.data
    }

    /// Bytes used by the block offsets.
    pub fn offsets_usage(&self) -> (r: ByteCount)
        ensures
            r@ == self@.offsets,
    {
        self.offsets
    }

    /// Bytes used by the whole store: the data and the offsets.
    pub fn total(&self) -> (r: ByteCount)
        requires
            self.wf(),
        ensures
            r@ == self@.data + self@.offsets,
            r@ == self@.total(),
    {
        self.data.add_bytes(self.offsets)
    }
}

impl Clone for StoreSpaceUsage {
    fn clone(&self) -> (r: StoreSpaceUsage)
        ensures
            r@ == self@,
    {
        StoreSpaceUsage { data: self.data, offsets: self.offsets }
    }
}

} // verus!

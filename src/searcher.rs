use vstd::prelude::*;

use crate::byte_count::ByteCount;
use crate::segment::{SegmentSpaceUsage, SegmentView};

verus! {

/// The views of a sequence of segment usages.
pub open spec fn segment_views(s: Seq<SegmentSpaceUsage>) -> Seq<SegmentView> {
    s.map_values(|g: SegmentSpaceUsage| g@)
}

/// Sum of the totals of the segments.
pub open spec fn sum_segment_totals(s: Seq<SegmentView>) -> nat
    decreases s.len(),
{
    if s.len() == 0 {
        0
    } else {
        sum_segment_totals(s.drop_last()) + s.last().total
    }
}

/// What a `SearcherSpaceUsage` holds.
pub struct SearcherView {
    pub segments: Seq<SegmentView>,
    pub total: nat,
}

impl SearcherView {
    /// Well-formed segments, and a total that is the sum of theirs.
    pub open spec fn wf(self) -> bool {
        &&& forall|i: int| 0 <= i < self.segments.len() ==> (#[trigger] self.segments[i]).wf()
        &&& self.total == sum_segment_totals(self.segments)
        &&& self.total <= u64::MAX
    }
}

/// Space used by a searcher: its segments, in the order they were added.
#[derive(Clone, Debug)]
pub struct SearcherSpaceUsage {
    segments: Vec<SegmentSpaceUsage>,
    total: ByteCount,
}

impl View for SearcherSpaceUsage {
    type V = SearcherView;

    closed spec fn view(&self) -> SearcherView {
        SearcherView { segments: segment_views(self.segments@), total: self.total@ }
    }
}

impl SearcherSpaceUsage {
    /// Well-formed segments, and a total that is the sum of theirs.
    pub open spec fn wf(&self) -> bool {
        self@.wf()
    }

    /// A searcher usage with no segment.
    pub fn new() -> (r: SearcherSpaceUsage)
        ensures
            r.wf(),
            r@.segments == Seq::<SegmentView>::empty(),
            r@.total == 0,
    {
        let r = SearcherSpaceUsage { segments: Vec::new(), total: ByteCount::zero() };
        assert(r@.segments =~= Seq::<SegmentView>::empty());
        r
    }

    /// Appends `segment`, with no check that it was not added before.
    pub fn add_segment(&mut self, segment: SegmentSpaceUsage)
        requires
            old(self).wf(),
            segment.wf(),
            old(self)@.total + segment@.total <= u64::MAX,
        ensures
            final(self).wf(),
            final(self)@.segments == old(self)@.segments.push(segment@),
            final(self)@.total == old(self)@.total + segment@.total,
    {
        let ghost before = self@;
        self.total = self.total.add_bytes(segment.total());
        self.segments.push(segment);
        assert(self@.segments =~= before.segments.push(segment@));
        assert(self@.segments.drop_last() =~= before.segments);
    }

    /// The usage of each segment, in the order they were added.
    pub fn segments(&self) -> (r: &[SegmentSpaceUsage])
        ensures
            segment_views(r@) == self@.segments,
    {
        self.segments.as_slice()
    }

    /// Total bytes used by the searcher's segments. Small files outside the
    /// segments, such as the index metadata, are not counted.
    pub fn total(&self) -> (r: ByteCount)
        ensures
            r@ == self@.total,
    {
        self.total
    }
}

/// The total of a searcher usage is the sum of the totals of the segments
/// added to it, and zero when none was.
pub proof fn lemma_searcher_total_is_sum(s: SearcherSpaceUsage)
    requires
        s.wf(),
    ensures
        s@.total == sum_segment_totals(s@.segments),
        s@.segments.len() == 0 ==> s@.total == 0,
{
}

} // verus!

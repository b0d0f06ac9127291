use vstd::prelude::*;

use crate::byte_count::ByteCount;
use crate::per_field::{PerFieldSpaceUsage, PerFieldView};
use crate::schema::SegmentComponent;
use crate::store::{StoreSpaceUsage, StoreView};

verus! {

/// The usage of one component of a segment, in the shape that its kind uses.
#[derive(Clone, Debug)]
pub enum ComponentSpaceUsage {
    /// Usage broken down by field.
    PerField(PerFieldSpaceUsage),
    /// Usage of the document store, in its two parts.
    Store(StoreSpaceUsage),
    /// A plain byte count.
    Basic(ByteCount),
}

impl ComponentSpaceUsage {
    /// Bytes used by the component, whatever its shape.
    pub open spec fn magnitude(self) -> nat {
        match self {
            ComponentSpaceUsage::PerField(p) => p@.total,
            ComponentSpaceUsage::Store(s) => s@.total(),
            ComponentSpaceUsage::Basic(b) => b@,
        }
    }
}

/// What a `SegmentSpaceUsage` holds.
pub struct SegmentView {
    pub num_docs: u32,
    pub termdict: PerFieldView,
    pub postings: PerFieldView,
    pub positions: PerFieldView,
    pub fast_fields: PerFieldView,
    pub fieldnorms: PerFieldView,
    pub store: StoreView,
    pub deletes: nat,
    pub total: nat,
}

impl SegmentView {
    /// `c` is the usage of component `kind` of this segment, in the shape
    /// of that kind: per field for the five indexed parts, the store for both
    /// kinds of store, a plain count for the deletions.
    pub open spec fn is_component(self, kind: SegmentComponent, c: ComponentSpaceUsage) -> bool {
        match kind {
            SegmentComponent::Postings => c is PerField && c->PerField_0@ == self.postings,
            SegmentComponent::Positions => c is PerField && c->PerField_0@ == self.positions,
            SegmentComponent::FastFields => c is PerField && c->PerField_0@ == self.fast_fields,
            SegmentComponent::FieldNorms => c is PerField && c->PerField_0@ == self.fieldnorms,
            SegmentComponent::Terms => c is PerField && c->PerField_0@ == self.termdict,
            SegmentComponent::Store => c is Store && c->Store_0@ == self.store,
            SegmentComponent::TempStore => c is Store && c->Store_0@ == self.store,
            SegmentComponent::Delete => c is Basic && c->Basic_0@ == self.deletes,
        }
    }

    /// Bytes that the accessor of component `kind` reports.
    pub open spec fn kind_total(self, kind: SegmentComponent) -> nat {
        match kind {
            SegmentComponent::Postings => self.postings.total,
            SegmentComponent::Positions => self.positions.total,
            SegmentComponent::FastFields => self.fast_fields.total,
            SegmentComponent::FieldNorms => self.fieldnorms.total,
            SegmentComponent::Terms => self.termdict.total,
            SegmentComponent::Store => self.store.total(),
            SegmentComponent::TempStore => self.store.total(),
            SegmentComponent::Delete => self.deletes,
        }
    }

    /// Sum of the usages of all the components.
    pub open spec fn parts_total(self) -> nat {
        self.termdict.total + self.postings.total + self.positions.total + self.fast_fields.total
            + self.fieldnorms.total + self.store.total() + self.deletes
    }

    /// Well-formed components, and a total that is the sum of their usages.
    pub open spec fn wf(self) -> bool {
        &&& self.termdict.wf()
        &&& self.postings.wf()
        &&& self.positions.wf()
        &&& self.fast_fields.wf()
        &&& self.fieldnorms.wf()
        &&& self.store.wf()
        &&& self.total == self.parts_total()
        &&& self.total <= u64::MAX
    }
}

/// Space used by all the large components of one segment.
#[derive(Clone, Debug)]
pub struct SegmentSpaceUsage {
    num_docs: u32,
    termdict: PerFieldSpaceUsage,
    postings: PerFieldSpaceUsage,
    positions: PerFieldSpaceUsage,
    fast_fields: PerFieldSpaceUsage,
    fieldnorms: PerFieldSpaceUsage,
    store: StoreSpaceUsage,
    deletes: ByteCount,
    total: ByteCount,
}

impl View for SegmentSpaceUsage {
    type V = SegmentView;

    closed spec fn view(&self) -> SegmentView {
        SegmentView {
            num_docs: self.num_docs,
            termdict: self.termdict@,
            postings: self.postings@,
            positions: self.positions@,
            fast_fields: self.fast_fields@,
            fieldnorms: self.fieldnorms@,
            store: self.store@,
            deletes: self.deletes@,
            total: self.total@,
        }
    }
}

impl SegmentSpaceUsage {
    /// Well-formed components, and a total that is the sum of their usages.
    pub open spec fn wf(&self) -> bool {
        self@.wf()
    }

    /// Combines the usages of the components of a segment of `num_docs`
    /// documents; the sum of all of them must fit in 64 bits.
    pub fn new(
        num_docs: u32,
        termdict: PerFieldSpaceUsage,
        postings: PerFieldSpaceUsage,
        positions: PerFieldSpaceUsage,
        fast_fields: PerFieldSpaceUsage,
        fieldnorms: PerFieldSpaceUsage,
        store: StoreSpaceUsage,
        deletes: ByteCount,
    ) -> (r: SegmentSpaceUsage)
        requires
            termdict.wf(),
            postings.wf(),
            positions.wf(),
            fast_fields.wf(),
            fieldnorms.wf(),
            store.wf(),
            termdict@.total + postings@.total + positions@.total + fast_fields@.total
                + fieldnorms@.total + store@.total() + deletes@ <= u64::MAX,
        ensures
            r.wf(),
            r@.num_docs == num_docs,
            r@.termdict == termdict@,
            r@.postings == postings@,
            r@.positions == positions@,
            r@.fast_fields == fast_fields@,
            r@.fieldnorms == fieldnorms@,
            r@.store == store@,
            r@.deletes == deletes@,
            r@.total == r@.parts_total(),
    {
        let total = termdict.total().add_bytes(postings.total()).add_bytes(
            positions.total(),
        ).add_bytes(fast_fields.total()).add_bytes(fieldnorms.total()).add_bytes(
            store.total(),
        ).add_bytes(deletes);
        SegmentSpaceUsage {
            num_docs,
            termdict,
            postings,
            positions,
            fast_fields,
            fieldnorms,
            store,
            deletes,
            total,
        }
    }

    /// A copy of the usage of the component `component`, in the shape that
    /// its kind uses. The two kinds of store give the same store usage.
    pub fn component(&self, component: SegmentComponent) -> (r: ComponentSpaceUsage)
        ensures
            self@.is_component(component, r),
            r.magnitude() == self@.kind_total(component),
    {
        match component {
            SegmentComponent::Postings => ComponentSpaceUsage::PerField(self.postings().clone()),
            SegmentComponent::Positions => ComponentSpaceUsage::PerField(self.positions().clone()),
            SegmentComponent::FastFields => ComponentSpaceUsage::PerField(
                self.fast_fields().clone(),
            ),
            SegmentComponent::FieldNorms => ComponentSpaceUsage::PerField(
                self.fieldnorms().clone(),
            ),
            SegmentComponent::Terms => ComponentSpaceUsage::PerField(self.termdict().clone()),
            SegmentComponent::Store => ComponentSpaceUsage::Store(self.store().clone()),
            SegmentComponent::TempStore => ComponentSpaceUsage::Store(self.store().clone()),
            SegmentComponent::Delete => ComponentSpaceUsage::Basic(self.deletes()),
        }
    }

    /// Number of documents in the segment.
    pub fn num_docs(&self) -> (r: u32)
        ensures
            r == self@.num_docs,
    {
        self.num_docs
    }

    /// Space used by the term dictionary.
    pub fn termdict(&self) -> (r: &PerFieldSpaceUsage)
        ensures
            r@ == self@.termdict,
    {
        &self.termdict
    }

    /// Space used by the postings lists.
    pub fn postings(&self) -> (r: &PerFieldSpaceUsage)
        ensures
            r@ == self@.postings,
    {
        &self.postings
    }

    /// Space used by the positions.
    pub fn positions(&self) -> (r: &PerFieldSpaceUsage)
        ensures
            r@ == self@.positions,
    {
        &self.positions
    }

    /// Space used by the fast fields.
    pub fn fast_fields(&self) -> (r: &PerFieldSpaceUsage)
        ensures
            r@ == self@.fast_fields,
    {
        &self.fast_fields
    }

    /// Space used by the field norms.
    pub fn fieldnorms(&self) -> (r: &PerFieldSpaceUsage)
        ensures
            r@ == self@.fieldnorms,
    {
        &self.fieldnorms
    }

    /// Space used by the stored documents.
    pub fn store(&self) -> (r: &StoreSpaceUsage)
        ensures
            r@ == self@.store,
    {
        &self.store
    }

    /// Space used by the deletion bitset.
    pub fn deletes(&self) -> (r: ByteCount)
        ensures
            r@ == self@.deletes,
    {
        self.deletes
    }

    /// Total bytes used by the segment: the sum of the usages of its
    /// components.
    pub fn total(&self) -> (r: ByteCount)
        requires
            self.wf(),
        ensures
            r@ == self@.total,
            r@ == self@.termdict.total + self@.postings.total + self@.positions.total
                + self@.fast_fields.total + self@.fieldnorms.total + self@.store.total()
                + self@.deletes,
    {
        self.total
    }
}

/// For every kind, the component handed out has the shape of that kind and
/// uses as many bytes as the segment's own accessor reports for it.
pub proof fn lemma_component_matches_accessor(
    seg: SegmentView,
    kind: SegmentComponent,
    c: ComponentSpaceUsage,
)
    requires
        seg.is_component(kind, c),
    ensures
        c.magnitude() == seg.kind_total(kind),
{
}

} // verus!

use vstd::prelude::*;

verus! {

/// Handle of a field of the index schema.
#[derive(Clone, Copy, Debug, PartialEq, Eq, Structural, Hash)]
pub struct Field(u32);

impl Field {
    /// The field whose identifier is `field_id`.
    pub fn from_field_id(field_id: u32) -> (r: Field)
        ensures
            r.id() == field_id,
    {
        Field(field_id)
    }

    /// The identifier of the field.
    pub fn field_id(&self) -> (r: u32)
        ensures
            r == self.id(),
    {
        self.0
    }

    /// The identifier of the field, in specifications.
    pub closed spec fn id(self) -> u32 {
        self.0
    }
}

/// The kinds of files that make up a segment.
#[derive(Clone, Copy, Debug, PartialEq, Eq, Structural, Hash)]
pub enum SegmentComponent {
    /// Per-term lists of the documents that hold the term.
    Postings,
    /// Token positions of each occurrence of a term.
    Positions,
    /// Columnar field values.
    FastFields,
    /// Per-document normalisation factors of each field.
    FieldNorms,
    /// The term dictionary.
    Terms,
    /// The stored documents.
    Store,
    /// The stored documents while a merge stages them.
    TempStore,
    /// The bitset of deleted documents.
    Delete,
}

} // verus!

//! Accounting of the bytes that the parts of a segmented search index occupy.
//!
//! Byte counts measured by the segment readers are gathered per field, folded
//! into per-component totals, combined into segment totals and summed over a
//! searcher. Every total is computed once, at construction, and is proved to
//! equal the sum of its parts.

mod byte_count;
mod field_usage;
mod per_field;
mod schema;
mod searcher;
mod segment;
mod store;

pub use byte_count::ByteCount;
pub use field_usage::{
    lemma_field_total_is_sum, lemma_record_is_write_once, lemma_records_keep_total, record_all,
    records_valid, sum_present, FieldUsage, FieldUsageView,
};
pub use per_field::{
    lookup_field, sum_field_totals, unique_fields, usage_views, PerFieldSpaceUsage, PerFieldView,
};
pub use schema::{Field, SegmentComponent};
pub use searcher::{
    lemma_searcher_total_is_sum, segment_views, sum_segment_totals, SearcherSpaceUsage,
    SearcherView,
};
pub use segment::{lemma_component_matches_accessor, ComponentSpaceUsage, SegmentSpaceUsage, SegmentView};
pub use store::{StoreSpaceUsage, StoreView};

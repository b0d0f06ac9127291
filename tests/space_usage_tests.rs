use space_usage::{
    ByteCount, ComponentSpaceUsage, Field, FieldUsage, PerFieldSpaceUsage, SearcherSpaceUsage,
    SegmentComponent, SegmentSpaceUsage, StoreSpaceUsage,
};

fn bytes(n: u64) -> ByteCount {
    ByteCount::new(n)
}

fn single(field: u32, size: u64) -> FieldUsage {
    let mut u = FieldUsage::empty(Field::from_field_id(field));
    u.add_field_idx(0, bytes(size));
    u
}

fn per_field(entries: Vec<FieldUsage>) -> PerFieldSpaceUsage {
    PerFieldSpaceUsage::new(entries)
}

fn empty_per_field() -> PerFieldSpaceUsage {
    PerFieldSpaceUsage::new(Vec::new())
}

fn expect_single_field(space: &PerFieldSpaceUsage, field: Field, min_size: u64, max_size: u64) {
    assert!(space.total().get_bytes() >= min_size);
    assert!(space.total().get_bytes() <= max_size);
    let pairs: Vec<(Field, u64)> =
        space.fields().iter().map(|u| (u.field(), u.total().get_bytes())).collect();
    assert_eq!(vec![(field, space.total().get_bytes())], pairs);
}

fn sample_segment() -> SegmentSpaceUsage {
    SegmentSpaceUsage::new(
        4,
        per_field(vec![single(0, 11)]),
        per_field(vec![single(0, 13)]),
        per_field(vec![single(0, 17)]),
        per_field(vec![single(1, 19)]),
        per_field(vec![single(0, 23)]),
        StoreSpaceUsage::new(bytes(29), bytes(31)),
        bytes(37),
    )
}

#[test]
fn byte_count_adds_and_defaults_to_zero() {
    assert_eq!(ByteCount::default().get_bytes(), 0);
    assert_eq!(ByteCount::zero(), ByteCount::default());
    assert_eq!(bytes(40).add_bytes(bytes(2)).get_bytes(), 42);
    assert_eq!(bytes(u64::MAX - 1).add_bytes(bytes(1)).get_bytes(), u64::MAX);
}

#[test]
fn field_id_round_trips() {
    assert_eq!(Field::from_field_id(7).field_id(), 7);
    assert_eq!(Field::from_field_id(7), Field::from_field_id(7));
    assert_ne!(Field::from_field_id(7), Field::from_field_id(8));
}

#[test]
fn empty_field_usage_has_nothing() {
    let u = FieldUsage::empty(Field::from_field_id(2));
    assert_eq!(u.field(), Field::from_field_id(2));
    assert_eq!(u.total().get_bytes(), 0);
    assert!(u.sub_num_bytes().is_empty());
}

#[test]
fn field_usage_records_sparse_sub_parts() {
    let mut u = FieldUsage::empty(Field::from_field_id(1));
    u.add_field_idx(2, bytes(10));
    assert_eq!(u.sub_num_bytes(), &[None, None, Some(bytes(10))][..]);
    u.add_field_idx(0, bytes(5));
    assert_eq!(u.sub_num_bytes(), &[Some(bytes(5)), None, Some(bytes(10))][..]);
    assert_eq!(u.total().get_bytes(), 15);
    u.add_field_idx(1, bytes(0));
    assert_eq!(u.sub_num_bytes(), &[Some(bytes(5)), Some(bytes(0)), Some(bytes(10))][..]);
    assert_eq!(u.total().get_bytes(), 15);
}

#[test]
fn field_total_is_sum_of_present_sub_parts() {
    let mut u = FieldUsage::empty(Field::from_field_id(1));
    u.add_field_idx(4, bytes(100));
    u.add_field_idx(1, bytes(20));
    u.add_field_idx(3, bytes(3));
    let sum: u64 = u.sub_num_bytes().iter().flatten().map(|b| b.get_bytes()).sum();
    assert_eq!(u.total().get_bytes(), sum);
    assert_eq!(sum, 123);
    assert_eq!(u.sub_num_bytes().len(), 5);
}

#[test]
fn field_usage_clone_is_equal() {
    let mut u = FieldUsage::empty(Field::from_field_id(9));
    u.add_field_idx(1, bytes(8));
    let c = u.clone();
    assert_eq!(c.field(), u.field());
    assert_eq!(c.total(), u.total());
    assert_eq!(c.sub_num_bytes(), u.sub_num_bytes());
}

#[test]
fn per_field_total_sums_all_fields() {
    let p = per_field(vec![single(0, 10), single(1, 20), single(2, 12)]);
    assert_eq!(p.total().get_bytes(), 42);
    let ids: Vec<(u32, u64)> =
        p.fields().iter().map(|u| (u.field().field_id(), u.total().get_bytes())).collect();
    assert_eq!(ids, vec![(0, 10), (1, 20), (2, 12)]);
}

#[test]
fn per_field_empty_has_zero_total() {
    let p = empty_per_field();
    assert_eq!(p.total().get_bytes(), 0);
    assert!(p.fields().is_empty());
}

#[test]
fn per_field_duplicate_field_keeps_last_and_counts_all() {
    let p = per_field(vec![single(0, 10), single(1, 20), single(0, 5)]);
    assert_eq!(p.total().get_bytes(), 35);
    let ids: Vec<(u32, u64)> =
        p.fields().iter().map(|u| (u.field().field_id(), u.total().get_bytes())).collect();
    assert_eq!(ids, vec![(0, 5), (1, 20)]);
}

#[test]
fn store_total_is_data_plus_offsets() {
    let s = StoreSpaceUsage::new(bytes(300), bytes(12));
    assert_eq!(s.data_usage().get_bytes(), 300);
    assert_eq!(s.offsets_usage().get_bytes(), 12);
    assert_eq!(s.total().get_bytes(), 312);
    assert_eq!(StoreSpaceUsage::new(bytes(0), bytes(0)).total().get_bytes(), 0);
}

#[test]
fn segment_total_is_sum_of_components() {
    let seg = sample_segment();
    assert_eq!(seg.num_docs(), 4);
    assert_eq!(seg.termdict().total().get_bytes(), 11);
    assert_eq!(seg.postings().total().get_bytes(), 13);
    assert_eq!(seg.positions().total().get_bytes(), 17);
    assert_eq!(seg.fast_fields().total().get_bytes(), 19);
    assert_eq!(seg.fieldnorms().total().get_bytes(), 23);
    assert_eq!(seg.store().total().get_bytes(), 60);
    assert_eq!(seg.deletes().get_bytes(), 37);
    assert_eq!(seg.total().get_bytes(), 11 + 13 + 17 + 19 + 23 + 60 + 37);
}

fn magnitude(c: &ComponentSpaceUsage) -> u64 {
    match c {
        ComponentSpaceUsage::PerField(p) => p.total().get_bytes(),
        ComponentSpaceUsage::Store(s) => s.total().get_bytes(),
        ComponentSpaceUsage::Basic(b) => b.get_bytes(),
    }
}

#[test]
fn component_dispatch_matches_accessors() {
    let seg = sample_segment();
    let per_field_kinds = [
        (SegmentComponent::Terms, 11),
        (SegmentComponent::Postings, 13),
        (SegmentComponent::Positions, 17),
        (SegmentComponent::FastFields, 19),
        (SegmentComponent::FieldNorms, 23),
    ];
    for (kind, expected) in per_field_kinds {
        let c = seg.component(kind);
        assert!(matches!(c, ComponentSpaceUsage::PerField(_)));
        assert_eq!(magnitude(&c), expected);
    }
    for kind in [SegmentComponent::Store, SegmentComponent::TempStore] {
        let c = seg.component(kind);
        match &c {
            ComponentSpaceUsage::Store(s) => {
                assert_eq!(s.data_usage().get_bytes(), 29);
                assert_eq!(s.offsets_usage().get_bytes(), 31);
            }
            _ => panic!("store kinds give a store usage"),
        }
        assert_eq!(magnitude(&c), 60);
    }
    let c = seg.component(SegmentComponent::Delete);
    assert!(matches!(c, ComponentSpaceUsage::Basic(_)));
    assert_eq!(magnitude(&c), 37);
}

#[test]
fn component_copy_keeps_fields() {
    let seg = sample_segment();
    match seg.component(SegmentComponent::FastFields) {
        ComponentSpaceUsage::PerField(p) => {
            expect_single_field(&p, Field::from_field_id(1), 19, 19);
        }
        _ => panic!("fast fields are per field"),
    }
}

#[test]
fn empty_searcher_has_no_segment_and_zero_total() {
    let s = SearcherSpaceUsage::new();
    assert!(s.segments().is_empty());
    assert_eq!(s.total().get_bytes(), 0);
}

#[test]
fn searcher_total_accumulates_in_order() {
    let mut s = SearcherSpaceUsage::new();
    s.add_segment(sample_segment());
    let small = SegmentSpaceUsage::new(
        1,
        empty_per_field(),
        empty_per_field(),
        empty_per_field(),
        empty_per_field(),
        empty_per_field(),
        StoreSpaceUsage::new(bytes(5), bytes(1)),
        bytes(0),
    );
    s.add_segment(small);
    assert_eq!(s.segments().len(), 2);
    assert_eq!(s.segments()[0].num_docs(), 4);
    assert_eq!(s.segments()[1].num_docs(), 1);
    assert_eq!(s.total().get_bytes(), 180 + 6);
    let sum: u64 = s.segments().iter().map(|g| g.total().get_bytes()).sum();
    assert_eq!(s.total().get_bytes(), sum);
}

#[test]
fn searcher_counts_a_segment_added_twice_twice() {
    let mut s = SearcherSpaceUsage::new();
    s.add_segment(sample_segment());
    s.add_segment(sample_segment());
    assert_eq!(s.segments().len(), 2);
    assert_eq!(s.total().get_bytes(), 360);
}

#[test]
fn numeric_field_segment_has_no_positions() {
    let name = Field::from_field_id(0);
    let seg = SegmentSpaceUsage::new(
        4,
        per_field(vec![single(0, 40)]),
        per_field(vec![single(0, 30)]),
        empty_per_field(),
        per_field(vec![single(0, 60)]),
        per_field(vec![single(0, 4)]),
        StoreSpaceUsage::new(bytes(0), bytes(0)),
        bytes(0),
    );
    let mut s = SearcherSpaceUsage::new();
    s.add_segment(seg);
    assert!(s.total().get_bytes() > 0);
    assert_eq!(s.segments().len(), 1);
    let seg = &s.segments()[0];
    assert_eq!(seg.num_docs(), 4);
    expect_single_field(seg.termdict(), name, 1, 512);
    expect_single_field(seg.postings(), name, 1, 512);
    assert_eq!(seg.positions().total().get_bytes(), 0);
    expect_single_field(seg.fast_fields(), name, 1, 512);
    expect_single_field(seg.fieldnorms(), name, 1, 512);
    assert_eq!(seg.deletes().get_bytes(), 0);
}

#[test]
fn stored_only_segment_has_only_store_usage() {
    let seg = SegmentSpaceUsage::new(
        4,
        empty_per_field(),
        empty_per_field(),
        empty_per_field(),
        empty_per_field(),
        empty_per_field(),
        StoreSpaceUsage::new(bytes(90), bytes(8)),
        bytes(0),
    );
    assert_eq!(seg.termdict().total().get_bytes(), 0);
    assert_eq!(seg.postings().total().get_bytes(), 0);
    assert_eq!(seg.positions().total().get_bytes(), 0);
    assert_eq!(seg.fast_fields().total().get_bytes(), 0);
    assert_eq!(seg.fieldnorms().total().get_bytes(), 0);
    assert!(seg.store().total().get_bytes() > 0);
    assert!(seg.store().total().get_bytes() < 512);
    assert_eq!(seg.total().get_bytes(), 98);
}

#[test]
fn deletions_are_counted_in_segment_total() {
    let before = sample_segment();
    let after = SegmentSpaceUsage::new(
        2,
        per_field(vec![single(0, 11)]),
        per_field(vec![single(0, 13)]),
        per_field(vec![single(0, 17)]),
        per_field(vec![single(1, 19)]),
        per_field(vec![single(0, 23)]),
        StoreSpaceUsage::new(bytes(29), bytes(31)),
        bytes(45),
    );
    assert!(after.deletes().get_bytes() > 0);
    assert!(after.num_docs() < before.num_docs());
    assert_eq!(after.total().get_bytes(), before.total().get_bytes() + 8);
}

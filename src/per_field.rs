use vstd::prelude::*;

use crate::byte_count::ByteCount;
use crate::field_usage::{FieldUsage, FieldUsageView};
use crate::schema::Field;

verus! {

/// The views of a sequence of field usages.
pub open spec fn usage_views(s: Seq<FieldUsage>) -> Seq<FieldUsageView> {
    s.map_values(|u: FieldUsage| u@)
}

/// Sum of the totals of the usages.
pub open spec fn sum_field_totals(s: Seq<FieldUsageView>) -> nat
    decreases s.len(),
{
    if s.len() == 0 {
        0
    } else {
        sum_field_totals(s.drop_last()) + s.last().num_bytes
    }
}

/// The last usage of `f` in `s`, if any.
pub open spec fn lookup_field(s: Seq<FieldUsageView>, f: Field) -> Option<FieldUsageView>
    decreases s.len(),
{
    if s.len() == 0 {
        None
    } else if s.last().field == f {
        Some(s.last())
    } else {
        lookup_field(s.drop_last(), f)
    }
}

/// No two usages of `s` belong to the same field.
pub open spec fn unique_fields(s: Seq<FieldUsageView>) -> bool {
    forall|i: int, j: int| 0 <= i < j < s.len() ==> s[i].field != s[j].field
}

/// What a `PerFieldSpaceUsage` holds.
pub struct PerFieldView {
    pub fields: Seq<FieldUsageView>,
    pub total: nat,
}

impl PerFieldView {
    /// One well-formed usage per field, and a total that fits in 64 bits.
    pub open spec fn wf(self) -> bool {
        &&& unique_fields(self.fields)
        &&& forall|i: int| 0 <= i < self.fields.len() ==> (#[trigger] self.fields[i]).wf()
        &&& self.total <= u64::MAX
    }
}

proof fn lemma_sum_prefix_le(s: Seq<FieldUsageView>, i: int)
    requires
        0 <= i <= s.len(),
    ensures
        sum_field_totals(s.take(i)) <= sum_field_totals(s),
    decreases s.len(),
{
    if i < s.len() {
        assert(s.drop_last().take(i) =~= s.take(i));
        lemma_sum_prefix_le(s.drop_last(), i);
    } else {
        assert(s.take(i) =~= s);
    }
}

proof fn lemma_lookup_push(s: Seq<FieldUsageView>, x: FieldUsageView, f: Field)
    ensures
        lookup_field(s.push(x), f) == if x.field == f { Some(x) } else { lookup_field(s, f) },
{
    assert(s.push(x).drop_last() =~= s);
}

proof fn lemma_lookup_update(s: Seq<FieldUsageView>, j: int, x: FieldUsageView, f: Field)
    requires
        unique_fields(s),
        0 <= j < s.len(),
        s[j].field == x.field,
    ensures
        lookup_field(s.update(j, x), f) == if x.field == f { Some(x) } else { lookup_field(s, f) },
    decreases s.len(),
{
    let t = s.update(j, x);
    let last = s.len() - 1;
    if j == last {
        assert(t.drop_last() =~= s.drop_last());
    } else {
        assert(t.drop_last() =~= s.drop_last().update(j, x));
        assert(s[last].field != x.field);
        lemma_lookup_update(s.drop_last(), j, x, f);
    }
}

/// Space used by one component, broken down by field.
#[derive(Debug)]
pub struct PerFieldSpaceUsage {
    fields: Vec<FieldUsage>,
    total: ByteCount,
}

impl View for PerFieldSpaceUsage {
    type V = PerFieldView;

    closed spec fn view(&self) -> PerFieldView {
        PerFieldView { fields: usage_views(self.fields@), total: self.total@ }
    }
}

/// The index of the usage of `f` in `v`, if there is one.
fn position_of(v: &Vec<FieldUsage>, f: Field) -> (r: Option<usize>)
    ensures
        match r {
            Some(j) => j < v@.len() && v@[j as int]@.field == f,
            None => forall|k: int| 0 <= k < v@.len() ==> (#[trigger] v@[k])@.field != f,
        },
{
    let mut k: usize = 0;
    while k < v.len()
        invariant
            k <= v@.len(),
            forall|m: int| 0 <= m < k ==> (#[trigger] v@[m])@.field != f,
        decreases v@.len() - k,
    {
        if v[k].field() == f {
            return Some(k);
        }
        k = k + 1;
    }
    None
}

impl PerFieldSpaceUsage {
    /// One well-formed usage per field, and a total that fits in 64 bits.
    pub open spec fn wf(&self) -> bool {
        self@.wf()
    }

    /// Gathers the usages of a component. The total is the sum of all the
    /// given totals; where two usages share a field, the later one is kept.
    pub fn new(fields: Vec<FieldUsage>) -> (r: PerFieldSpaceUsage)
        requires
            forall|i: int| 0 <= i < fields@.len() ==> (#[trigger] fields@[i]).wf(),
            sum_field_totals(usage_views(fields@)) <= u64::MAX,
        ensures
            r.wf(),
            r@.total == sum_field_totals(usage_views(fields@)),
            forall|f: Field| lookup_field(r@.fields, f) == lookup_field(usage_views(fields@), f),
            unique_fields(usage_views(fields@)) ==> r@.fields == usage_views(fields@),
    {
        let ghost input = usage_views(fields@);
        let mut out: Vec<FieldUsage> = Vec::new();
        let mut total = ByteCount::zero();
        let mut i: usize = 0;
        while i < fields.len()
            invariant
                i <= fields@.len(),
                input == usage_views(fields@),
                forall|k: int| 0 <= k < fields@.len() ==> (#[trigger] fields@[k]).wf(),
                sum_field_totals(input) <= u64::MAX,
                total@ == sum_field_totals(input.take(i as int)),
                unique_fields(usage_views(out@)),
                forall|k: int| 0 <= k < out@.len() ==> (#[trigger] out@[k]).wf(),
                forall|f: Field| lookup_field(usage_views(out@), f) == lookup_field(input.take(i as int), f),
                unique_fields(input.take(i as int)) ==> usage_views(out@) == input.take(i as int),
            decreases fields@.len() - i,
        {
            let u = fields[i].clone();
            let ghost prev = usage_views(out@);
            let ghost next = input.take(i as int + 1);
            proof {
                assert(next.drop_last() =~= input.take(i as int));
                assert(next.last() == u@);
                lemma_sum_prefix_le(input, i as int + 1);
            }
            total = total.add_bytes(u.total());
            match position_of(&out, u.field()) {
                Some(j) => {
                    proof {
                        assert forall|f: Field| lookup_field(prev.update(j as int, u@), f)
                            == lookup_field(next, f) by {
                            lemma_lookup_update(prev, j as int, u@, f);
                        }
                        if unique_fields(next) {
                            assert(prev == input.take(i as int));
                            assert(next[j as int].field == next[i as int].field);
                        }
                    }
                    out.set(j, u);
                    assert(usage_views(out@) =~= prev.update(j as int, u@));
                    assert(prev[j as int].field == u@.field);
                },
                None => {
                    proof {
                        assert forall|k: int| 0 <= k < prev.len() implies prev[k].field != u@.field by {
                            assert(prev[k] == out@[k]@);
                        }
                        assert forall|f: Field| lookup_field(prev.push(u@), f)
                            == lookup_field(next, f) by {
                            lemma_lookup_push(prev, u@, f);
                        }
                    }
                    out.push(u);
                    assert(usage_views(out@) =~= prev.push(u@));
                    proof {
                        if unique_fields(next) {
                            assert(next.drop_last() =~= input.take(i as int));
                            assert(usage_views(out@) =~= next);
                        }
                    }
                },
            }
            i = i + 1;
        }
        assert(input.take(i as int) =~= input);
        PerFieldSpaceUsage { fields: out, total }
    }

    /// The usage of each field.
    pub fn fields(&self) -> (r: &[FieldUsage])
        ensures
            usage_views(r@) == self@.fields,
    {
        self.fields.as_slice()
    }

    /// Bytes used by the component.
    pub fn total(&self) -> (r: ByteCount)
        ensures
            r@ == self@.total,
    {
        self.total
    }
}

impl Clone for PerFieldSpaceUsage {
    fn clone(&self) -> (r: PerFieldSpaceUsage)
        ensures
            r@ == self@,
    {
        let mut out: Vec<FieldUsage> = Vec::new();
        let mut i: usize = 0;
        while i < self.fields.len()
            invariant
                i <= self.fields@.len(),
                usage_views(out@) == usage_views(self.fields@).take(i as int),
            decreases self.fields@.len() - i,
        {
            let u = self.fields[i].clone();
            let ghost prev = usage_views(out@);
            out.push(u);
            assert(usage_views(out@) =~= prev.push(u@));
            i = i + 1;
            assert(usage_views(out@) =~= usage_views(self.fields@).take(i as int));
        }
        assert(usage_views(out@) =~= usage_views(self.fields@));
        PerFieldSpaceUsage { fields: out, total: self.total }
    }
}

} // verus!

use vstd::prelude::*;

use crate::byte_count::ByteCount;
use crate::schema::Field;

verus! {

/// Sum of the byte counts of the slots that hold one.
pub open spec fn sum_present(s: Seq<Option<ByteCount>>) -> nat
    decreases s.len(),
{
    if s.len() == 0 {
        0
    } else {
        sum_present(s.drop_last()) + match s.last() {
            Some(b) => b@,
            None => 0nat,
        }
    }
}

/// What a `FieldUsage` holds.
pub struct FieldUsageView {
    pub field: Field,
    pub num_bytes: nat,
    pub sub: Seq<Option<ByteCount>>,
}

impl FieldUsageView {
    /// The total is the sum of the recorded sub-parts and fits in 64 bits.
    pub open spec fn wf(self) -> bool {
        &&& self.num_bytes == sum_present(self.sub)
        &&& self.num_bytes <= u64::MAX
    }

    /// Sub-part `idx` has not been recorded yet.
    pub open spec fn can_record(self, idx: nat) -> bool {
        idx >= self.sub.len() || self.sub[idx as int] is None
    }

    /// The usage after recording `size` bytes for sub-part `idx`: the slots
    /// grow to cover `idx`, new slots are empty, and `idx` holds `size`.
    pub open spec fn recorded(self, idx: nat, size: ByteCount) -> FieldUsageView {
        let len = if idx + 1 > self.sub.len() { idx + 1 } else { self.sub.len() };
        FieldUsageView {
            field: self.field,
            num_bytes: self.num_bytes + size@,
            sub: Seq::new(
                len as nat,
                |j: int|
                    if j == idx {
                        Some(size)
                    } else if j < self.sub.len() {
                        self.sub[j]
                    } else {
                        None
                    },
            ),
        }
    }
}

/// Appending an empty slot leaves the sum unchanged.
proof fn lemma_sum_push_none(s: Seq<Option<ByteCount>>)
    ensures
        sum_present(s.push(None)) == sum_present(s),
{
    assert(s.push(None).drop_last() =~= s);
}

/// Filling an empty slot adds its count to the sum.
proof fn lemma_sum_fill(s: Seq<Option<ByteCount>>, i: int, b: ByteCount)
    requires
        0 <= i < s.len(),
        s[i] is None,
    ensures
        sum_present(s.update(i, Some(b))) == sum_present(s) + b@,
    decreases s.len(),
{
    let t = s.update(i, Some(b));
    if i == s.len() - 1 {
        assert(t.drop_last() =~= s.drop_last());
    } else {
        assert(t.drop_last() =~= s.drop_last().update(i, Some(b)));
        lemma_sum_fill(s.drop_last(), i, b);
    }
}

/// Space used by one field within one component, possibly split into
/// sub-parts indexed from zero.
#[derive(Debug)]
pub struct FieldUsage {
    field: Field,
    num_bytes: ByteCount,
    sub_num_bytes: Vec<Option<ByteCount>>,
}

impl View for FieldUsage {
    type V = FieldUsageView;

    closed spec fn view(&self) -> FieldUsageView {
        FieldUsageView { field: self.field, num_bytes: self.num_bytes@, sub: self.sub_num_bytes@ }
    }
}

impl FieldUsage {
    /// The total equals the sum of the recorded sub-parts.
    pub open spec fn wf(&self) -> bool {
        self@.wf()
    }

    /// A usage of `field` with nothing recorded.
    pub fn empty(field: Field) -> (r: FieldUsage)
        ensures
            r.wf(),
            r@.field == field,
            r@.num_bytes == 0,
            r@.sub == Seq::<Option<ByteCount>>::empty(),
    {
        let r = FieldUsage { field, num_bytes: ByteCount::zero(), sub_num_bytes: Vec::new() };
        assert(r@.sub.len() == 0);
        r
    }

    /// Records `size` bytes for sub-part `idx`, which must not be recorded yet.
    pub fn add_field_idx(&mut self, idx: usize, size: ByteCount)
        requires
            old(self).wf(),
            old(self)@.can_record(idx as nat),
            old(self)@.num_bytes + size@ <= u64::MAX,
            idx < usize::MAX,
        ensures
            final(self).wf(),
            final(self)@ == old(self)@.recorded(idx as nat, size),
    {
        let ghost before = self@;
        let old_len = self.sub_num_bytes.len();
        while self.sub_num_bytes.len() <= idx
            invariant
                self@.field == before.field,
                self@.num_bytes == before.num_bytes,
                sum_present(self@.sub) == sum_present(before.sub),
                self@.sub.len() >= old_len,
                old_len == before.sub.len(),
                self@.sub.len() <= idx + 1 || self@.sub.len() == old_len,
                forall|j: int| 0 <= j < old_len ==> self@.sub[j] == before.sub[j],
                forall|j: int| old_len <= j < self@.sub.len() ==> self@.sub[j] is None,
            decreases idx + 1 - self.sub_num_bytes.len(),
        {
            proof {
                lemma_sum_push_none(self@.sub);
            }
            self.sub_num_bytes.push(None);
        }
        proof {
            lemma_sum_fill(self@.sub, idx as int, size);
        }
        self.sub_num_bytes.set(idx, Some(size));
        self.num_bytes = self.num_bytes.add_bytes(size);
        assert(self@.sub =~= before.recorded(idx as nat, size).sub);
    }

    /// The field this usage belongs to.
    pub fn field(&self) -> (r: Field)
        ensures
            r == self@.field,
    {
        self.field
    }

    /// The byte count of each sub-part, `None` where none was recorded.
    pub fn sub_num_bytes(&self) -> (r: &[Option<ByteCount>])
        ensures
            r@ == self@.sub,
    {
        self.sub_num_bytes.as_slice()
    }

    /// Total bytes used by this field in this component.
    pub fn total(&self) -> (r: ByteCount)
        ensures
            r@ == self@.num_bytes,
    {
        self.num_bytes
    }
}

impl Clone for FieldUsage {
    fn clone(&self) -> (r: FieldUsage)
        ensures
            r@ == self@,
    {
        let mut sub: Vec<Option<ByteCount>> = Vec::new();
        let mut i: usize = 0;
        while i < self.sub_num_bytes.len()
            invariant
                i <= self.sub_num_bytes@.len(),
                sub@ == self.sub_num_bytes@.subrange(0, i as int),
            decreases self.sub_num_bytes@.len() - i,
        {
            sub.push(self.sub_num_bytes[i]);
            i = i + 1;
            assert(sub@ =~= self.sub_num_bytes@.subrange(0, i as int));
        }
        assert(sub@ =~= self.sub_num_bytes@);
        FieldUsage { field: self.field, num_bytes: self.num_bytes, sub_num_bytes: sub }
    }
}

/// The total of a field usage is the sum of its recorded sub-parts.
pub proof fn lemma_field_total_is_sum(u: FieldUsage)
    requires
        u.wf(),
    ensures
        u@.num_bytes == sum_present(u@.sub),
{
}

/// The usage after recording each `(index, size)` of `ops` in turn.
pub open spec fn record_all(v: FieldUsageView, ops: Seq<(nat, ByteCount)>) -> FieldUsageView
    decreases ops.len(),
{
    if ops.len() == 0 {
        v
    } else {
        record_all(v, ops.drop_last()).recorded(ops.last().0, ops.last().1)
    }
}

/// Each record of `ops` is of a sub-part that is not recorded yet.
pub open spec fn records_valid(v: FieldUsageView, ops: Seq<(nat, ByteCount)>) -> bool
    decreases ops.len(),
{
    ops.len() == 0 || (records_valid(v, ops.drop_last()) && record_all(
        v,
        ops.drop_last(),
    ).can_record(ops.last().0))
}

/// Appending empty slots leaves the sum unchanged.
proof fn lemma_sum_pad(s: Seq<Option<ByteCount>>, k: nat)
    ensures
        sum_present(s + Seq::new(k, |j: int| None::<ByteCount>)) == sum_present(s),
    decreases k,
{
    if k == 0 {
        assert(s + Seq::new(k, |j: int| None::<ByteCount>) =~= s);
    } else {
        let longer = s + Seq::new(k, |j: int| None::<ByteCount>);
        assert(longer.drop_last() =~= s + Seq::new((k - 1) as nat, |j: int| None::<ByteCount>));
        lemma_sum_pad(s, (k - 1) as nat);
    }
}

/// Recording a sub-part that is not recorded yet adds its size to the sum
/// of the recorded sub-parts.
proof fn lemma_recorded_sum(v: FieldUsageView, idx: nat, size: ByteCount)
    requires
        v.can_record(idx),
    ensures
        sum_present(v.recorded(idx, size).sub) == sum_present(v.sub) + size@,
{
    let r = v.recorded(idx, size);
    let k: nat = (r.sub.len() - v.sub.len()) as nat;
    let padded = v.sub + Seq::new(k, |j: int| None::<ByteCount>);
    lemma_sum_pad(v.sub, k);
    assert(r.sub =~= padded.update(idx as int, Some(size)));
    lemma_sum_fill(padded, idx as int, size);
}

/// After any sequence of records, each of a sub-part not recorded before,
/// the total of a field usage is the sum of its recorded sub-parts.
pub proof fn lemma_records_keep_total(v: FieldUsageView, ops: Seq<(nat, ByteCount)>)
    requires
        v.num_bytes == sum_present(v.sub),
        records_valid(v, ops),
    ensures
        record_all(v, ops).num_bytes == sum_present(record_all(v, ops).sub),
    decreases ops.len(),
{
    if ops.len() > 0 {
        lemma_records_keep_total(v, ops.drop_last());
        lemma_recorded_sum(record_all(v, ops.drop_last()), ops.last().0, ops.last().1);
    }
}

/// Once sub-part `idx` is recorded it can not be recorded again: a second
/// record of it is outside what `add_field_idx` accepts, so the total it
/// added is never counted twice.
pub proof fn lemma_record_is_write_once(v: FieldUsageView, idx: nat, size: ByteCount)
    requires
        v.can_record(idx),
    ensures
        !v.recorded(idx, size).can_record(idx),
        v.recorded(idx, size).num_bytes == v.num_bytes + size@,
{
}

} // verus!

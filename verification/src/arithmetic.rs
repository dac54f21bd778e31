//! What elementwise arithmetic means, on the mathematical contents of chunks
//! and columns.
//!
//! Values are 32-bit integers and results wrap around on overflow. A slot holds
//! either a value or nothing (null); a result slot is null as soon as one of
//! its operand slots is.

use vstd::prelude::*;

verus! {

/// The contents of one chunk: its slots in order, `None` for a null slot.
pub type Slots = Seq<Option<i32>>;

/// The three elementwise operations.
#[derive(Clone, Copy, Debug, PartialEq, Eq, Structural)]
pub enum Operator {
    Add,
    Subtract,
    Multiply,
}

/// The 32-bit two's complement integer that is congruent to `x` modulo 2^32.
pub open spec fn wrap_i32(x: int) -> i32 {
    let m = x % 0x1_0000_0000;
    if m < 0x8000_0000 {
        m as i32
    } else {
        (m - 0x1_0000_0000) as i32
    }
}

impl Operator {
    /// The operation on two values, wrapping around on overflow.
    pub open spec fn on_values(self, a: i32, b: i32) -> i32 {
        match self {
            Operator::Add => wrap_i32(a + b),
            Operator::Subtract => wrap_i32(a - b),
            Operator::Multiply => wrap_i32(a * b),
        }
    }

    /// The operation on two slots: null unless both hold a value.
    pub open spec fn on_slots(self, a: Option<i32>, b: Option<i32>) -> Option<i32> {
        match (a, b) {
            (Some(x), Some(y)) => Some(self.on_values(x, y)),
            _ => None,
        }
    }

    /// The operation on two chunks of equal length, slot by slot.
    pub open spec fn on_chunks(self, l: Slots, r: Slots) -> Slots {
        Seq::new(l.len(), |i: int| self.on_slots(l[i], r[i]))
    }

    /// The operation on two lists of chunks, pair by pair. Chunks of the longer
    /// list that have no partner are left out.
    pub open spec fn on_columns(self, l: Seq<Slots>, r: Seq<Slots>) -> Seq<Slots> {
        Seq::new(paired(l, r), |i: int| self.on_chunks(l[i], r[i]))
    }

    /// Whether the operands may be swapped.
    pub open spec fn commutes(self) -> bool {
        self != Operator::Subtract
    }
}

/// Where the exact sum, difference or product fits in 32 bits, it is the
/// result.
pub proof fn lemma_exact_in_range(a: i32, b: i32)
    ensures
        i32::MIN <= a + b <= i32::MAX ==> Operator::Add.on_values(a, b) == a + b,
        i32::MIN <= a - b <= i32::MAX ==> Operator::Subtract.on_values(a, b) == a - b,
        i32::MIN <= a * b <= i32::MAX ==> Operator::Multiply.on_values(a, b) == a * b,
{
}

/// The number of chunk pairs that two lists of chunks form.
pub open spec fn paired(l: Seq<Slots>, r: Seq<Slots>) -> nat {
    if l.len() <= r.len() {
        l.len()
    } else {
        r.len()
    }
}

/// Whether the chunks at index `i` of both lists exist and differ in length.
pub open spec fn mismatch_at(l: Seq<Slots>, r: Seq<Slots>, i: int) -> bool {
    0 <= i < paired(l, r) && l[i].len() != r[i].len()
}

/// Whether every pair of chunks has two chunks of the same length.
pub open spec fn aligned(l: Seq<Slots>, r: Seq<Slots>) -> bool {
    forall|i: int| !mismatch_at(l, r, i)
}

/// Whether `i` is the first index at which the paired chunks differ in
/// length.
pub open spec fn first_mismatch(l: Seq<Slots>, r: Seq<Slots>, i: int) -> bool {
    mismatch_at(l, r, i) && forall|j: int| 0 <= j < i ==> !mismatch_at(l, r, j)
}

/// The number of null slots in a chunk.
pub open spec fn null_count(c: Slots) -> nat
    decreases c.len(),
{
    if c.len() == 0 {
        0
    } else if c.last() is None {
        null_count(c.drop_last()) + 1
    } else {
        null_count(c.drop_last())
    }
}

/// The number of slots in all chunks together.
pub open spec fn total_len(chunks: Seq<Slots>) -> nat
    decreases chunks.len(),
{
    if chunks.len() == 0 {
        0
    } else {
        total_len(chunks.drop_last()) + chunks.last().len()
    }
}

/// The number of null slots in all chunks together.
pub open spec fn total_nulls(chunks: Seq<Slots>) -> nat
    decreases chunks.len(),
{
    if chunks.len() == 0 {
        0
    } else {
        total_nulls(chunks.drop_last()) + null_count(chunks.last())
    }
}

/// The count that the result of an operation carries. `count` is what the left
/// operand carries, `of_chunks` what its chunks hold and `of_result` what the
/// chunks of the result hold. A count that is right is counted anew; a count
/// that is wrong, or whose new value no `usize` can hold, is handed on.
pub open spec fn carried(count: nat, of_chunks: nat, of_result: nat) -> nat {
    if count == of_chunks && of_result <= usize::MAX {
        of_result
    } else {
        count
    }
}

/// The values of `v` as slots, none of them null.
pub open spec fn all_valid(v: Seq<i32>) -> Slots {
    Seq::new(v.len(), |i: int| Some(v[i]))
}

/// A chunk built from plain values has no null slot.
pub proof fn lemma_all_valid_has_no_nulls(v: Seq<i32>)
    ensures
        null_count(all_valid(v)) == 0,
    decreases v.len(),
{
    if v.len() > 0 {
        lemma_all_valid_has_no_nulls(v.drop_last());
        assert(all_valid(v).drop_last() == all_valid(v.drop_last()));
    }
}

/// A chunk has no more null slots than slots.
pub proof fn lemma_null_count_bound(c: Slots)
    ensures
        null_count(c) <= c.len(),
    decreases c.len(),
{
    if c.len() > 0 {
        lemma_null_count_bound(c.drop_last());
    }
}

/// A list of chunks has no more null slots than slots.
pub proof fn lemma_total_nulls_bound(chunks: Seq<Slots>)
    ensures
        total_nulls(chunks) <= total_len(chunks),
    decreases chunks.len(),
{
    if chunks.len() > 0 {
        lemma_total_nulls_bound(chunks.drop_last());
        lemma_null_count_bound(chunks.last());
    }
}

/// Against a chunk without nulls, the result is null exactly where the left
/// operand is.
pub proof fn lemma_on_chunks_null_count(op: Operator, l: Slots, r: Slots)
    requires
        l.len() == r.len(),
        null_count(r) == 0,
    ensures
        null_count(op.on_chunks(l, r)) == null_count(l),
    decreases l.len(),
{
    if l.len() > 0 {
        lemma_on_chunks_null_count(op, l.drop_last(), r.drop_last());
        assert(op.on_chunks(l, r).drop_last() == op.on_chunks(l.drop_last(), r.drop_last()));
        assert(op.on_chunks(l, r).last() == op.on_slots(l.last(), r.last()));
    }
}

/// Addition and multiplication give the same column whichever operand comes
/// first.
pub proof fn lemma_on_columns_commutes(op: Operator, l: Seq<Slots>, r: Seq<Slots>)
    requires
        op.commutes(),
        aligned(l, r),
    ensures
        op.on_columns(l, r) == op.on_columns(r, l),
{
    assert forall|i: int| 0 <= i < paired(l, r) implies op.on_chunks(l[i], r[i]) == op.on_chunks(
        r[i],
        l[i],
    ) by {
        assert(!mismatch_at(l, r, i));
        assert forall|k: int| 0 <= k < l[i].len() implies op.on_slots(l[i][k], r[i][k])
            == op.on_slots(r[i][k], l[i][k]) by {
            if let (Some(x), Some(y)) = (l[i][k], r[i][k]) {
                assert(x * y == y * x) by (nonlinear_arith);
            }
        }
    }
}

/// The first chunks of a list have no more slots than the whole list.
pub proof fn lemma_total_len_prefix(chunks: Seq<Slots>, n: int)
    requires
        0 <= n <= chunks.len(),
    ensures
        total_len(chunks.take(n)) <= total_len(chunks),
    decreases chunks.len(),
{
    if n == chunks.len() {
        assert(chunks.take(n) == chunks);
    } else {
        lemma_total_len_prefix(chunks.drop_last(), n);
        assert(chunks.drop_last().take(n) == chunks.take(n));
    }
}

/// The first chunks of a list have no more null slots than the whole list.
pub proof fn lemma_total_nulls_prefix(chunks: Seq<Slots>, n: int)
    requires
        0 <= n <= chunks.len(),
    ensures
        total_nulls(chunks.take(n)) <= total_nulls(chunks),
    decreases chunks.len(),
{
    if n == chunks.len() {
        assert(chunks.take(n) == chunks);
    } else {
        lemma_total_nulls_prefix(chunks.drop_last(), n);
        assert(chunks.drop_last().take(n) == chunks.take(n));
    }
}

/// The result of an operation has no more slots than the left operand.
pub proof fn lemma_on_columns_total_len_bound(op: Operator, l: Seq<Slots>, r: Seq<Slots>)
    ensures
        total_len(op.on_columns(l, r)) <= total_len(l),
    decreases l.len(),
{
    if l.len() > 0 {
        if l.len() <= r.len() {
            lemma_on_columns_total_len(op, l, r);
        } else {
            lemma_on_columns_total_len_bound(op, l.drop_last(), r);
            assert(op.on_columns(l, r) == op.on_columns(l.drop_last(), r));
        }
    } else {
        assert(op.on_columns(l, r) == Seq::<Slots>::empty());
    }
}

/// The result of an operation has as many slots as the left operand, provided
/// that each of its chunks has a partner.
pub proof fn lemma_on_columns_total_len(op: Operator, l: Seq<Slots>, r: Seq<Slots>)
    requires
        l.len() <= r.len(),
    ensures
        total_len(op.on_columns(l, r)) == total_len(l),
    decreases l.len(),
{
    if l.len() > 0 {
        let n = l.len() - 1;
        lemma_on_columns_total_len(op, l.drop_last(), r.take(n));
        assert(op.on_columns(l, r).drop_last() == op.on_columns(l.drop_last(), r.take(n)));
    }
}

/// The result of an operation has as many null slots as the left operand,
/// provided that each of its chunks has a partner of the same length and the
/// right operand has no null slot.
pub proof fn lemma_on_columns_total_nulls(op: Operator, l: Seq<Slots>, r: Seq<Slots>)
    requires
        l.len() <= r.len(),
        aligned(l, r),
        total_nulls(r) == 0,
    ensures
        total_nulls(op.on_columns(l, r)) == total_nulls(l),
    decreases r.len(),
{
    if r.len() > 0 {
        if l.len() == r.len() {
            let n = l.len() - 1;
            assert(!mismatch_at(l, r, n));
            assert forall|i: int| !mismatch_at(l.drop_last(), r.drop_last(), i) by {
                assert(!mismatch_at(l, r, i));
            }
            lemma_on_columns_total_nulls(op, l.drop_last(), r.drop_last());
            lemma_on_chunks_null_count(op, l.last(), r.last());
            assert(op.on_columns(l, r).drop_last() == op.on_columns(l.drop_last(), r.drop_last()));
        } else {
            assert forall|i: int| !mismatch_at(l, r.drop_last(), i) by {
                assert(!mismatch_at(l, r, i));
            }
            lemma_on_columns_total_nulls(op, l, r.drop_last());
            assert(op.on_columns(l, r) == op.on_columns(l, r.drop_last()));
        }
    }
}

} // verus!

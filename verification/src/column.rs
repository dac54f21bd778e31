//! The chunked column: field metadata, a list of chunks and two cached
//! counts, with elementwise arithmetic between columns.

use crate::arithmetic::{
    aligned, all_valid, carried, first_mismatch, lemma_all_valid_has_no_nulls,
    lemma_on_columns_total_len, lemma_on_columns_total_len_bound, lemma_on_columns_total_nulls,
    lemma_total_len_prefix, lemma_total_nulls_bound, lemma_total_nulls_prefix, mismatch_at,
    paired, total_len, total_nulls, Operator, Slots,
};
use crate::chunk::{arrays_debug, chunk_views, debug_text, Chunk};
use arrow::error::ArrowError;
use vstd::prelude::*;

verus! {

/// The logical type of a column's values. Columns hold 32-bit signed
/// integers.
#[derive(Clone, Copy, Debug, PartialEq, Eq, Structural)]
pub enum DataType {
    Int32,
}

/// What a field is in contracts.
pub struct FieldView {
    pub name: Seq<char>,
    pub data_type: DataType,
    pub nullable: bool,
}

/// The metadata that describes a column: its name, the logical type of its
/// values and whether it may hold nulls.
pub struct Field {
    pub name: String,
    pub data_type: DataType,
    pub nullable: bool,
}

impl View for Field {
    type V = FieldView;

    open spec fn view(&self) -> FieldView {
        FieldView { name: self.name@, data_type: self.data_type, nullable: self.nullable }
    }
}

impl Clone for Field {
    fn clone(&self) -> (res: Field)
        ensures
            res@ == self@,
    {
        Field { name: self.name.clone(), data_type: self.data_type, nullable: self.nullable }
    }
}

/// What a column is in contracts: its field, the contents of its chunks in
/// order, and the two counts it carries.
#[verifier::ext_equal]
pub struct ColumnView {
    pub field: FieldView,
    pub chunks: Seq<Slots>,
    pub len: nat,
    pub null_count: nat,
}

impl ColumnView {
    /// Whether the two counts agree with the chunks: `len` is the number of
    /// slots and `null_count` the number of null slots in all chunks together.
    pub open spec fn is_consistent(self) -> bool {
        self.len == total_len(self.chunks) && self.null_count == total_nulls(self.chunks)
    }

    /// The column that an operation gives with `self` on the left. The field
    /// is that of `self` and the chunks are the results pair by pair. Each of
    /// the two counts is counted anew over the new chunks where `self` carries
    /// it rightly, and handed on from `self` as it is where it does not.
    pub open spec fn combined(self, rhs: ColumnView, op: Operator) -> ColumnView {
        let chunks = op.on_columns(self.chunks, rhs.chunks);
        ColumnView {
            field: self.field,
            chunks: chunks,
            len: carried(self.len, total_len(self.chunks), total_len(chunks)),
            null_count: carried(self.null_count, total_nulls(self.chunks), total_nulls(chunks)),
        }
    }
}

/// An operation on a consistent column gives a consistent column. The length
/// is one that a stored column can carry: it fits in a `usize`.
pub proof fn lemma_combined_is_consistent(l: ColumnView, r: ColumnView, op: Operator)
    requires
        l.is_consistent(),
        l.len <= usize::MAX,
    ensures
        l.combined(r, op).is_consistent(),
{
    let chunks = op.on_columns(l.chunks, r.chunks);
    lemma_on_columns_total_len_bound(op, l.chunks, r.chunks);
    lemma_total_nulls_bound(chunks);
}

/// An operation keeps the length of the left operand, right or wrong, if each
/// of its chunks has a partner.
pub proof fn lemma_combined_keeps_len(l: ColumnView, r: ColumnView, op: Operator)
    requires
        l.chunks.len() <= r.chunks.len(),
    ensures
        l.combined(r, op).len == l.len,
{
    lemma_on_columns_total_len(op, l.chunks, r.chunks);
}

/// An operation keeps the null count of the left operand, right or wrong, if
/// each of its chunks has a partner of the same length and the right operand
/// has no null slot.
pub proof fn lemma_combined_keeps_null_count(l: ColumnView, r: ColumnView, op: Operator)
    requires
        l.chunks.len() <= r.chunks.len(),
        aligned(l.chunks, r.chunks),
        total_nulls(r.chunks) == 0,
    ensures
        l.combined(r, op).null_count == l.null_count,
{
    lemma_on_columns_total_nulls(op, l.chunks, r.chunks);
}

/// Why an operation on two columns has no result: the chunks at index `chunk`
/// are the first pair that differs in length.
#[derive(Clone, Copy, Debug, PartialEq, Eq, Structural)]
pub struct LengthMismatch {
    pub chunk: usize,
}

/// A column of nullable 32-bit integers, stored as a list of chunks.
///
/// The column carries two counts beside its chunks. `new` sets them from the
/// values it is given, and `copy_with_array` hands them on as they are, so
/// they agree with the chunks only as far as its caller sees to it
/// (`ColumnView::is_consistent`). An operation counts anew what its left
/// operand carries rightly and hands on what it does not.
pub struct ChunkedArray {
    field: Field,
    chunks: Vec<Chunk>,
    /// the number of slots the column is taken to have: in a consistent
    /// column, the sum of all chunk lengths
    len: usize,
    /// the number of null slots the column is taken to have: in a consistent
    /// column, the sum of all chunk nulls
    null_counts: usize,
}

/// The number of slots in all of `chunks`, or nothing if no `usize` holds it.
fn count_slots(chunks: &Vec<Chunk>) -> (res: Option<usize>)
    ensures
        match res {
            Some(n) => n == total_len(chunk_views(chunks@)),
            None => total_len(chunk_views(chunks@)) > usize::MAX,
        },
{
    let ghost views = chunk_views(chunks@);
    let mut total: usize = 0;
    let mut i: usize = 0;
    while i < chunks.len()
        invariant
            i <= chunks.len(),
            views == chunk_views(chunks@),
            total == total_len(views.take(i as int)),
        decreases chunks.len() - i,
    {
        proof {
            assert(views.take(i + 1).drop_last() == views.take(i as int));
            lemma_total_len_prefix(views, i + 1);
        }
        match total.checked_add(chunks[i].len()) {
            Some(t) => {
                total = t;
            },
            None => {
                return None;
            },
        }
        i += 1;
    }
    assert(views.take(i as int) == views);
    Some(total)
}

/// The number of null slots in all of `chunks`, or nothing if no `usize` holds
/// it.
fn count_nulls(chunks: &Vec<Chunk>) -> (res: Option<usize>)
    ensures
        match res {
            Some(n) => n == total_nulls(chunk_views(chunks@)),
            None => total_nulls(chunk_views(chunks@)) > usize::MAX,
        },
{
    let ghost views = chunk_views(chunks@);
    let mut total: usize = 0;
    let mut i: usize = 0;
    while i < chunks.len()
        invariant
            i <= chunks.len(),
            views == chunk_views(chunks@),
            total == total_nulls(views.take(i as int)),
        decreases chunks.len() - i,
    {
        proof {
            assert(views.take(i + 1).drop_last() == views.take(i as int));
            lemma_total_nulls_prefix(views, i + 1);
        }
        match total.checked_add(chunks[i].null_count()) {
            Some(t) => {
                total = t;
            },
            None => {
                return None;
            },
        }
        i += 1;
    }
    assert(views.take(i as int) == views);
    Some(total)
}

impl View for ChunkedArray {
    type V = ColumnView;

    closed spec fn view(&self) -> ColumnView {
        ColumnView {
            field: self.field@,
            chunks: chunk_views(self.chunks@),
            len: self.len as nat,
            null_count: self.null_counts as nat,
        }
    }
}

impl ChunkedArray {
    /// A nullable column named `name` that holds the values of `v` in one
    /// chunk, none of them null.
    pub fn new(name: &str, v: &[i32]) -> (res: ChunkedArray)
        ensures
            res@ == (ColumnView {
                field: FieldView { name: name@, data_type: DataType::Int32, nullable: true },
                chunks: seq![all_valid(v@)],
                len: v@.len(),
                null_count: 0,
            }),
            res@.is_consistent(),
    {
        let chunk = Chunk::from_slice(v);
        let field = Field { name: name.to_owned(), data_type: DataType::Int32, nullable: true };
        let mut chunks: Vec<Chunk> = Vec::with_capacity(1);
        chunks.push(chunk);
        let res = ChunkedArray { field, chunks, len: v.len(), null_counts: 0 };
        proof {
            assert(res@.chunks =~= seq![all_valid(v@)]);
            lemma_all_valid_has_no_nulls(v@);
            assert(res@.chunks.drop_last() =~= Seq::<Slots>::empty());
            assert(total_len(res@.chunks.drop_last()) == 0);
            assert(total_nulls(res@.chunks.drop_last()) == 0);
        }
        res
    }

    /// A column with the field and the two counts of `self` and the chunks
    /// `arr`. The counts are handed on as they are, whatever `arr` holds: the
    /// result is consistent only if `arr` has as many slots and null slots as
    /// `self` carries.
    pub fn copy_with_array(&self, arr: Vec<Chunk>) -> (res: ChunkedArray)
        ensures
            res@ == (ColumnView {
                field: self@.field,
                chunks: chunk_views(arr@),
                len: self@.len,
                null_count: self@.null_count,
            }),
    {
        ChunkedArray {
            field: self.field.clone(),
            chunks: arr,
            len: self.len,
            null_counts: self.null_counts,
        }
    }

    /// The length that the result of an operation carries if its chunks are
    /// `chunks`: their number of slots where `self` carries its own length
    /// rightly, and the length of `self` where it does not.
    fn carried_len(&self, chunks: &Vec<Chunk>) -> (res: usize)
        ensures
            res == carried(
                self@.len,
                total_len(self@.chunks),
                total_len(chunk_views(chunks@)),
            ),
    {
        match (count_slots(&self.chunks), count_slots(chunks)) {
            (Some(own), Some(new)) => if own == self.len {
                new
            } else {
                self.len
            },
            _ => self.len,
        }
    }

    /// The null count that the result of an operation carries if its chunks
    /// are `chunks`: their number of null slots where `self` carries its own
    /// null count rightly, and the null count of `self` where it does not.
    fn carried_null_count(&self, chunks: &Vec<Chunk>) -> (res: usize)
        ensures
            res == carried(
                self@.null_count,
                total_nulls(self@.chunks),
                total_nulls(chunk_views(chunks@)),
            ),
    {
        match (count_nulls(&self.chunks), count_nulls(chunks)) {
            (Some(own), Some(new)) => if own == self.null_counts {
                new
            } else {
                self.null_counts
            },
            _ => self.null_counts,
        }
    }

    /// Applies `op` chunk by chunk to `self` and `rhs`, and fails with the
    /// index of the first pair of chunks that the kernel refuses and with the
    /// kernel's error.
    fn combine(&self, rhs: &ChunkedArray, op: Operator) -> (res: Result<
        ChunkedArray,
        (usize, ArrowError),
    >)
        ensures
            res is Ok <==> aligned(self@.chunks, rhs@.chunks),
            res matches Ok(c) ==> c@ == self@.combined(rhs@, op),
            res matches Ok(c) ==> (self@.is_consistent() ==> c@.is_consistent()),
            res matches Err(e) ==> first_mismatch(self@.chunks, rhs@.chunks, e.0 as int),
    {
        let n = if self.chunks.len() <= rhs.chunks.len() {
            self.chunks.len()
        } else {
            rhs.chunks.len()
        };
        let ghost l = self@.chunks;
        let ghost r = rhs@.chunks;
        let mut new_chunks: Vec<Chunk> = Vec::with_capacity(self.chunks.len());
        let mut i: usize = 0;
        while i < n
            invariant
                i <= n,
                n == paired(l, r),
                l == chunk_views(self.chunks@),
                r == chunk_views(rhs.chunks@),
                new_chunks@.len() == i,
                forall|j: int| 0 <= j < i ==> !mismatch_at(l, r, j),
                forall|j: int| 0 <= j < i ==> (#[trigger] new_chunks@[j])@ == op.on_chunks(l[j], r[j]),
            decreases n - i,
        {
            match self.chunks[i].compute(&rhs.chunks[i], op) {
                Ok(c) => {
                    new_chunks.push(c);
                },
                Err(e) => {
                    assert(mismatch_at(l, r, i as int));
                    return Err((i, e));
                },
            }
            i += 1;
        }
        assert(chunk_views(new_chunks@) =~= op.on_columns(l, r));
        let len = self.carried_len(&new_chunks);
        let null_counts = self.carried_null_count(&new_chunks);
        let res = ChunkedArray { field: self.field.clone(), chunks: new_chunks, len, null_counts };
        proof {
            assert(res@ =~= self@.combined(rhs@, op));
            if self@.is_consistent() {
                lemma_combined_is_consistent(self@, rhs@, op);
            }
        }
        Ok(res)
    }

    /// Applies `op` chunk by chunk to `self` and `rhs`. Chunks are paired by
    /// index, and chunks of the longer column that have no partner are left
    /// out. The result keeps the field of `self`. Each of its two counts is
    /// counted anew over its own chunks where `self` carries that count
    /// rightly, so that the result is consistent whenever `self` is; a count
    /// that `self` carries wrongly is handed on as it is.
    ///
    /// Fails exactly if some pair of chunks differs in length, and then names
    /// the first such pair.
    pub fn try_apply(&self, rhs: &ChunkedArray, op: Operator) -> (res: Result<
        ChunkedArray,
        LengthMismatch,
    >)
        ensures
            res is Ok <==> aligned(self@.chunks, rhs@.chunks),
            res matches Ok(c) ==> c@ == self@.combined(rhs@, op),
            res matches Ok(c) ==> (self@.is_consistent() ==> c@.is_consistent()),
            res matches Err(e) ==> first_mismatch(self@.chunks, rhs@.chunks, e.chunk as int),
    {
        match self.combine(rhs, op) {
            Ok(c) => Ok(c),
            Err(e) => Err(LengthMismatch { chunk: e.0 }),
        }
    }

    /// Applies `op` to two columns whose paired chunks agree in length. On
    /// other columns it ends the program with `message` and the kernel's
    /// error.
    fn apply_or_fail(&self, rhs: &ChunkedArray, op: Operator, message: &str) -> (res: ChunkedArray)
        requires
            aligned(self@.chunks, rhs@.chunks),
        ensures
            res@ == self@.combined(rhs@, op),
            self@.is_consistent() ==> res@.is_consistent(),
    {
        let computed: Result<ChunkedArray, ArrowError> = match self.combine(rhs, op) {
            Ok(c) => Ok(c),
            Err(e) => Err(e.1),
        };
        computed.expect(message)
    }

    /// The field that describes the column.
    pub fn field(&self) -> (f: &Field)
        ensures
            f@ == self@.field,
    {
        &self.field
    }

    /// The chunks of the column in order.
    pub fn chunks(&self) -> (c: &Vec<Chunk>)
        ensures
            chunk_views(c@) == self@.chunks,
    {
        &self.chunks
    }

    /// The number of slots that the column carries as its length: in a
    /// consistent column, the sum of all chunk lengths.
    pub fn len(&self) -> (n: usize)
        ensures
            n == self@.len,
    {
        self.len
    }

    /// The number of null slots that the column carries as its null count: in
    /// a consistent column, the sum of all chunk nulls.
    pub fn null_count(&self) -> (n: usize)
        ensures
            n == self@.null_count,
    {
        self.null_counts
    }

    /// The text that `{:?}` gives for the Arrow arrays behind the chunks.
    pub fn debug_string(&self) -> (s: String)
        ensures
            s@ == debug_text(self@.chunks),
    {
        arrays_debug(&self.chunks)
    }
}

impl Clone for ChunkedArray {
    fn clone(&self) -> (res: ChunkedArray)
        ensures
            res@ == self@,
    {
        let mut chunks: Vec<Chunk> = Vec::with_capacity(self.chunks.len());
        let mut i: usize = 0;
        while i < self.chunks.len()
            invariant
                i <= self.chunks.len(),
                chunks@.len() == i,
                forall|j: int| 0 <= j < i ==> (#[trigger] chunks@[j])@ == self.chunks@[j]@,
            decreases self.chunks.len() - i,
        {
            chunks.push(self.chunks[i].clone());
            i += 1;
        }
        let res = ChunkedArray {
            field: self.field.clone(),
            chunks,
            len: self.len,
            null_counts: self.null_counts,
        };
        proof {
            assert(res@.chunks =~= self@.chunks);
            assert(res@ =~= self@);
        }
        res
    }
}

/// `+` between two columns asks that each pair of chunks agrees in length.
/// What it returns is stated by the operator itself.
impl<'a> vstd::std_specs::ops::AddSpecImpl for &'a ChunkedArray {
    open spec fn obeys_add_spec() -> bool {
        false
    }

    open spec fn add_req(self, rhs: &'a ChunkedArray) -> bool {
        aligned(self@.chunks, rhs@.chunks)
    }

    open spec fn add_spec(self, rhs: &'a ChunkedArray) -> ChunkedArray {
        arbitrary()
    }
}

impl<'a> core::ops::Add for &'a ChunkedArray {
    type Output = ChunkedArray;

    /// The wrapping sums of two columns, chunk by chunk. Each pair of chunks
    /// must agree in length. A count that the left operand carries rightly is
    /// counted anew over the result's chunks; one that it carries wrongly is
    /// handed on.
    fn add(self, rhs: &'a ChunkedArray) -> (res: ChunkedArray)
        ensures
            res@ == self@.combined(rhs@, Operator::Add),
            self@.is_consistent() ==> res@.is_consistent(),
    {
        self.apply_or_fail(rhs, Operator::Add, "Could not add, check data types and length")
    }
}

/// `+` between two columns asks that each pair of chunks agrees in length.
/// What it returns is stated by the operator itself.
impl vstd::std_specs::ops::AddSpecImpl for ChunkedArray {
    open spec fn obeys_add_spec() -> bool {
        false
    }

    open spec fn add_req(self, rhs: ChunkedArray) -> bool {
        aligned(self@.chunks, rhs@.chunks)
    }

    open spec fn add_spec(self, rhs: ChunkedArray) -> ChunkedArray {
        arbitrary()
    }
}

impl core::ops::Add for ChunkedArray {
    type Output = ChunkedArray;

    /// The wrapping sums of two columns, chunk by chunk. Each pair of chunks
    /// must agree in length. A count that the left operand carries rightly is
    /// counted anew over the result's chunks; one that it carries wrongly is
    /// handed on.
    fn add(self, rhs: ChunkedArray) -> (res: ChunkedArray)
        ensures
            res@ == self@.combined(rhs@, Operator::Add),
            self@.is_consistent() ==> res@.is_consistent(),
    {
        (&self).add(&rhs)
    }
}

/// `*` between two columns asks that each pair of chunks agrees in length.
/// What it returns is stated by the operator itself.
impl<'a> vstd::std_specs::ops::MulSpecImpl for &'a ChunkedArray {
    open spec fn obeys_mul_spec() -> bool {
        false
    }

    open spec fn mul_req(self, rhs: &'a ChunkedArray) -> bool {
        aligned(self@.chunks, rhs@.chunks)
    }

    open spec fn mul_spec(self, rhs: &'a ChunkedArray) -> ChunkedArray {
        arbitrary()
    }
}

impl<'a> core::ops::Mul for &'a ChunkedArray {
    type Output = ChunkedArray;

    /// The wrapping products of two columns, chunk by chunk. Each pair of chunks
    /// must agree in length. A count that the left operand carries rightly is
    /// counted anew over the result's chunks; one that it carries wrongly is
    /// handed on.
    fn mul(self, rhs: &'a ChunkedArray) -> (res: ChunkedArray)
        ensures
            res@ == self@.combined(rhs@, Operator::Multiply),
            self@.is_consistent() ==> res@.is_consistent(),
    {
        self.apply_or_fail(rhs, Operator::Multiply, "Could not multiply, check data types and length")
    }
}

/// `*` between two columns asks that each pair of chunks agrees in length.
/// What it returns is stated by the operator itself.
impl vstd::std_specs::ops::MulSpecImpl for ChunkedArray {
    open spec fn obeys_mul_spec() -> bool {
        false
    }

    open spec fn mul_req(self, rhs: ChunkedArray) -> bool {
        aligned(self@.chunks, rhs@.chunks)
    }

    open spec fn mul_spec(self, rhs: ChunkedArray) -> ChunkedArray {
        arbitrary()
    }
}

impl core::ops::Mul for ChunkedArray {
    type Output = ChunkedArray;

    /// The wrapping products of two columns, chunk by chunk. Each pair of chunks
    /// must agree in length. A count that the left operand carries rightly is
    /// counted anew over the result's chunks; one that it carries wrongly is
    /// handed on.
    fn mul(self, rhs: ChunkedArray) -> (res: ChunkedArray)
        ensures
            res@ == self@.combined(rhs@, Operator::Multiply),
            self@.is_consistent() ==> res@.is_consistent(),
    {
        (&self).mul(&rhs)
    }
}

/// `-` between two columns asks that each pair of chunks agrees in length.
/// What it returns is stated by the operator itself.
impl<'a> vstd::std_specs::ops::SubSpecImpl for &'a ChunkedArray {
    open spec fn obeys_sub_spec() -> bool {
        false
    }

    open spec fn sub_req(self, rhs: &'a ChunkedArray) -> bool {
        aligned(self@.chunks, rhs@.chunks)
    }

    open spec fn sub_spec(self, rhs: &'a ChunkedArray) -> ChunkedArray {
        arbitrary()
    }
}

impl<'a> core::ops::Sub for &'a ChunkedArray {
    type Output = ChunkedArray;

    /// The wrapping differences of two columns, chunk by chunk. Each pair of chunks
    /// must agree in length. A count that the left operand carries rightly is
    /// counted anew over the result's chunks; one that it carries wrongly is
    /// handed on.
    fn sub(self, rhs: &'a ChunkedArray) -> (res: ChunkedArray)
        ensures
            res@ == self@.combined(rhs@, Operator::Subtract),
            self@.is_consistent() ==> res@.is_consistent(),
    {
        self.apply_or_fail(rhs, Operator::Subtract, "Could not subtract, check data types and length")
    }
}

/// `-` between two columns asks that each pair of chunks agrees in length.
/// What it returns is stated by the operator itself.
impl vstd::std_specs::ops::SubSpecImpl for ChunkedArray {
    open spec fn obeys_sub_spec() -> bool {
        false
    }

    open spec fn sub_req(self, rhs: ChunkedArray) -> bool {
        aligned(self@.chunks, rhs@.chunks)
    }

    open spec fn sub_spec(self, rhs: ChunkedArray) -> ChunkedArray {
        arbitrary()
    }
}

impl core::ops::Sub for ChunkedArray {
    type Output = ChunkedArray;

    /// The wrapping differences of two columns, chunk by chunk. Each pair of chunks
    /// must agree in length. A count that the left operand carries rightly is
    /// counted anew over the result's chunks; one that it carries wrongly is
    /// handed on.
    fn sub(self, rhs: ChunkedArray) -> (res: ChunkedArray)
        ensures
            res@ == self@.combined(rhs@, Operator::Subtract),
            self@.is_consistent() ==> res@.is_consistent(),
    {
        (&self).sub(&rhs)
    }
}

} // verus!

//! One chunk of a column: a contiguous, immutable run of nullable 32-bit
//! integers held in an Arrow array.
//!
//! Verus cannot look inside an Arrow array, so this module names what an array
//! holds (`chunk_values`) and states, for each Arrow call the crate makes, what
//! the call does to those contents. These statements are taken on trust; the
//! rest of the crate is proved from them.

use crate::arithmetic::{all_valid, null_count, Operator, Slots};
use arrow::array::{Array, AsArray, PrimitiveArray, PrimitiveBuilder};
use arrow::compute::kernels::numeric;
use arrow::datatypes::Int32Type;
use arrow::error::ArrowError;
use vstd::prelude::*;

verus! {

/// A contiguous run of nullable 32-bit integers.
///
/// The values live in an Arrow `PrimitiveArray<Int32Type>`, which stays hidden
/// from the verifier; contracts speak of the chunk through its view.
#[verifier::external_body]
pub struct Chunk {
    inner: PrimitiveArray<Int32Type>,
}

/// An Arrow `PrimitiveBuilder<Int32Type>` that is being filled.
#[verifier::external_body]
pub struct ChunkBuilder {
    inner: PrimitiveBuilder<Int32Type>,
}

/// The logical contents of a chunk: one entry per slot, `None` where the slot
/// is null.
pub uninterp spec fn chunk_values(c: Chunk) -> Seq<Option<i32>>;

/// The slots appended to a builder since it was created or last finished.
pub uninterp spec fn builder_values(b: ChunkBuilder) -> Seq<Option<i32>>;

/// Arrow's error type. A kernel hands it out when it refuses its operands.
/// This crate never looks into it: an operator between columns fails with it,
/// and every other caller learns from it only that the kernel refused.
#[verifier::external_type_specification]
#[verifier::external_body]
pub struct ExArrowError(ArrowError);

impl View for Chunk {
    type V = Seq<Option<i32>>;

    open spec fn view(&self) -> Seq<Option<i32>> {
        chunk_values(*self)
    }
}

/// `PrimitiveBuilder::with_capacity`: a builder that holds no slots yet. The
/// capacity only sizes the first allocation; as with `Vec::with_capacity`, the
/// contract speaks of a builder that could be allocated.
#[verifier::external_body]
fn builder_with_capacity(capacity: usize) -> (b: ChunkBuilder)
    ensures
        builder_values(b) == Seq::<Option<i32>>::empty(),
{
    ChunkBuilder { inner: PrimitiveBuilder::<Int32Type>::with_capacity(capacity) }
}

/// `PrimitiveBuilder::append_value`: one more slot at the end, not null,
/// holding `v`.
#[verifier::external_body]
fn builder_append_value(b: &mut ChunkBuilder, v: i32)
    ensures
        builder_values(*final(b)) == builder_values(*old(b)).push(Some(v)),
{
    b.inner.append_value(v)
}

/// `PrimitiveBuilder::append_option`: one more slot at the end, null for
/// `None` and holding the value otherwise.
#[verifier::external_body]
fn builder_append_option(b: &mut ChunkBuilder, v: Option<i32>)
    ensures
        builder_values(*final(b)) == builder_values(*old(b)).push(v),
{
    b.inner.append_option(v)
}

/// `PrimitiveBuilder::finish`: an array of the slots appended so far, in
/// order.
#[verifier::external_body]
fn builder_finish(b: ChunkBuilder) -> (c: Chunk)
    ensures
        chunk_values(c) == builder_values(b),
{
    let mut b = b;
    Chunk { inner: b.inner.finish() }
}

/// `Clone` for `PrimitiveArray`: an array with the same slots.
#[verifier::external_body]
fn array_clone(c: &Chunk) -> (res: Chunk)
    ensures
        chunk_values(res) == chunk_values(*c),
{
    Chunk { inner: c.inner.clone() }
}

/// `Array::len` of a `PrimitiveArray`: the number of its slots.
#[verifier::external_body]
fn array_len(c: &Chunk) -> (n: usize)
    ensures
        n == chunk_values(*c).len(),
{
    c.inner.len()
}

/// `Array::null_count` of a `PrimitiveArray`: the number of its null slots.
#[verifier::external_body]
fn array_null_count(c: &Chunk) -> (n: usize)
    ensures
        n == null_count(chunk_values(*c)),
{
    c.inner.null_count()
}

/// `PrimitiveArray::iter`: the slots in order, a null slot as `None`.
#[verifier::external_body]
fn array_to_vec(c: &Chunk) -> (v: Vec<Option<i32>>)
    ensures
        v@ == chunk_values(*c),
{
    c.inner.iter().collect()
}

/// `numeric::add_wrapping` on two arrays of 32-bit integers: an error if the
/// arrays differ in length; otherwise the wrapping sums slot by slot, null
/// where either operand is.
#[verifier::external_body]
fn kernel_add(l: &Chunk, r: &Chunk) -> (res: Result<Chunk, ArrowError>)
    ensures
        res is Ok <==> chunk_values(*l).len() == chunk_values(*r).len(),
        res matches Ok(c) ==> chunk_values(c) == Operator::Add.on_chunks(
            chunk_values(*l),
            chunk_values(*r),
        ),
{
    match numeric::add_wrapping(&l.inner, &r.inner) {
        Ok(a) => Ok(Chunk { inner: a.as_primitive::<Int32Type>().clone() }),
        Err(e) => Err(e),
    }
}

/// `numeric::sub_wrapping` on two arrays of 32-bit integers: an error if the
/// arrays differ in length; otherwise the wrapping differences slot by slot,
/// null where either operand is.
#[verifier::external_body]
fn kernel_subtract(l: &Chunk, r: &Chunk) -> (res: Result<Chunk, ArrowError>)
    ensures
        res is Ok <==> chunk_values(*l).len() == chunk_values(*r).len(),
        res matches Ok(c) ==> chunk_values(c) == Operator::Subtract.on_chunks(
            chunk_values(*l),
            chunk_values(*r),
        ),
{
    match numeric::sub_wrapping(&l.inner, &r.inner) {
        Ok(a) => Ok(Chunk { inner: a.as_primitive::<Int32Type>().clone() }),
        Err(e) => Err(e),
    }
}

/// `numeric::mul_wrapping` on two arrays of 32-bit integers: an error if the
/// arrays differ in length; otherwise the wrapping products slot by slot, null
/// where either operand is.
#[verifier::external_body]
fn kernel_multiply(l: &Chunk, r: &Chunk) -> (res: Result<Chunk, ArrowError>)
    ensures
        res is Ok <==> chunk_values(*l).len() == chunk_values(*r).len(),
        res matches Ok(c) ==> chunk_values(c) == Operator::Multiply.on_chunks(
            chunk_values(*l),
            chunk_values(*r),
        ),
{
    match numeric::mul_wrapping(&l.inner, &r.inner) {
        Ok(a) => Ok(Chunk { inner: a.as_primitive::<Int32Type>().clone() }),
        Err(e) => Err(e),
    }
}

/// The text that Arrow's `Debug` gives for a list of arrays with these
/// contents.
pub uninterp spec fn debug_text(chunks: Seq<Seq<Option<i32>>>) -> Seq<char>;

/// `Debug` for a list of `PrimitiveArray`s, through `format!`: a text that
/// depends on the arrays' slots alone.
#[verifier::external_body]
pub(crate) fn arrays_debug(chunks: &Vec<Chunk>) -> (s: String)
    ensures
        s@ == debug_text(chunk_views(chunks@)),
{
    format!("{:?}", chunks.iter().map(|c| &c.inner).collect::<Vec<_>>())
}

/// The contents of each chunk of a list.
pub open spec fn chunk_views(chunks: Seq<Chunk>) -> Seq<Slots> {
    Seq::new(chunks.len(), |i: int| chunks[i]@)
}

impl Chunk {
    /// A chunk that holds the values of `v` in order, none of them null.
    pub fn from_slice(v: &[i32]) -> (c: Chunk)
        ensures
            c@ == all_valid(v@),
    {
        let mut builder = builder_with_capacity(v.len());
        let mut i: usize = 0;
        while i < v.len()
            invariant
                i <= v.len(),
                builder_values(builder) == all_valid(v@.take(i as int)),
            decreases v.len() - i,
        {
            builder_append_value(&mut builder, v[i]);
            assert(all_valid(v@.take(i + 1)) == all_valid(v@.take(i as int)).push(Some(v@[i as int])));
            i += 1;
        }
        assert(v@.take(i as int) == v@);
        builder_finish(builder)
    }

    /// A chunk that holds the slots of `v` in order, null where `v` has `None`.
    pub fn from_options(v: &[Option<i32>]) -> (c: Chunk)
        ensures
            c@ == v@,
    {
        let mut builder = builder_with_capacity(v.len());
        let mut i: usize = 0;
        while i < v.len()
            invariant
                i <= v.len(),
                builder_values(builder) == v@.take(i as int),
            decreases v.len() - i,
        {
            builder_append_option(&mut builder, v[i]);
            assert(v@.take(i + 1) == v@.take(i as int).push(v@[i as int]));
            i += 1;
        }
        assert(v@.take(i as int) == v@);
        builder_finish(builder)
    }

    /// Applies `op` to this chunk and `rhs`, slot by slot, and hands on what
    /// the kernel answers: the result if the two chunks have the same length,
    /// and the kernel's error if they do not.
    pub(crate) fn compute(&self, rhs: &Chunk, op: Operator) -> (res: Result<Chunk, ArrowError>)
        ensures
            res is Ok <==> self@.len() == rhs@.len(),
            res matches Ok(c) ==> c@ == op.on_chunks(self@, rhs@),
    {
        match op {
            Operator::Add => kernel_add(self, rhs),
            Operator::Subtract => kernel_subtract(self, rhs),
            Operator::Multiply => kernel_multiply(self, rhs),
        }
    }

    /// Applies `op` to this chunk and `rhs`, slot by slot. There is a result
    /// exactly if the two chunks have the same length.
    pub fn apply(&self, rhs: &Chunk, op: Operator) -> (res: Option<Chunk>)
        ensures
            res is Some <==> self@.len() == rhs@.len(),
            res matches Some(c) ==> c@ == op.on_chunks(self@, rhs@),
    {
        match self.compute(rhs, op) {
            Ok(c) => Some(c),
            Err(_) => None,
        }
    }

    /// The number of slots.
    pub fn len(&self) -> (n: usize)
        ensures
            n == self@.len(),
    {
        array_len(self)
    }

    /// The number of null slots.
    pub fn null_count(&self) -> (n: usize)
        ensures
            n == null_count(self@),
    {
        array_null_count(self)
    }

    /// The slots of the chunk in order, a null slot as `None`.
    pub fn to_vec(&self) -> (v: Vec<Option<i32>>)
        ensures
            v@ == self@,
    {
        array_to_vec(self)
    }
}

impl Clone for Chunk {
    fn clone(&self) -> (res: Chunk)
        ensures
            res@ == self@,
    {
        array_clone(self)
    }
}

} // verus!

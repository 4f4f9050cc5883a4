//! Arrow column builders that snapshots are written into, and the arrays
//! they finish into. Each builder and each finished array is held in a
//! struct of this crate, and what it holds is named by a spec function.
use vstd::prelude::*;
use arrow::array::{
    ArrayBuilder, Int64Array, Int64Builder, Int8Array, Int8Builder, UInt32Array, UInt32Builder,
    UInt64Array, UInt64Builder,
};

verus! {

/// A column of `i64` being built (an arrow `Int64Builder`).
#[verifier::external_body]
pub struct I64Column {
    builder: Int64Builder,
}

/// A column of `i8` being built (an arrow `Int8Builder`).
#[verifier::external_body]
pub struct I8Column {
    builder: Int8Builder,
}

/// A column of `u64` being built (an arrow `UInt64Builder`).
#[verifier::external_body]
pub struct U64Column {
    builder: UInt64Builder,
}

/// A column of `u32` being built (an arrow `UInt32Builder`).
#[verifier::external_body]
pub struct U32Column {
    builder: UInt32Builder,
}

/// A finished `i64` column (an arrow `Int64Array`).
#[verifier::external_body]
pub struct I64Values {
    pub array: Int64Array,
}

/// A finished `i8` column (an arrow `Int8Array`).
#[verifier::external_body]
pub struct I8Values {
    pub array: Int8Array,
}

/// A finished `u64` column (an arrow `UInt64Array`).
#[verifier::external_body]
pub struct U64Values {
    pub array: UInt64Array,
}

/// A finished `u32` column (an arrow `UInt32Array`).
#[verifier::external_body]
pub struct U32Values {
    pub array: UInt32Array,
}

/// The values appended to an `i64` column so far, in order.
pub uninterp spec fn i64_column(c: I64Column) -> Seq<i64>;

/// The values appended to an `i8` column so far, in order.
pub uninterp spec fn i8_column(c: I8Column) -> Seq<i8>;

/// The values appended to a `u64` column so far, in order.
pub uninterp spec fn u64_column(c: U64Column) -> Seq<u64>;

/// The values appended to a `u32` column so far, in order.
pub uninterp spec fn u32_column(c: U32Column) -> Seq<u32>;

/// The values of a finished `i64` column, in order.
pub uninterp spec fn i64_values(v: I64Values) -> Seq<i64>;

/// The values of a finished `i8` column, in order.
pub uninterp spec fn i8_values(v: I8Values) -> Seq<i8>;

/// The values of a finished `u64` column, in order.
pub uninterp spec fn u64_values(v: U64Values) -> Seq<u64>;

/// The values of a finished `u32` column, in order.
pub uninterp spec fn u32_values(v: U32Values) -> Seq<u32>;

/// Room for `capacity` values of `width` bytes fits in `isize::MAX` bytes,
/// the limit past which `Vec::with_capacity` panics.
pub open spec fn capacity_fits(capacity: usize, width: int) -> bool {
    capacity * width <= isize::MAX
}

impl I64Column {
    /// Calls `PrimitiveBuilder::with_capacity`: an empty builder.
    #[verifier::external_body]
    pub(crate) fn with_capacity(capacity: usize) -> (r: Self)
        requires
            capacity_fits(capacity, 8),
        ensures
            i64_column(r) == Seq::<i64>::empty(),
    {
        I64Column { builder: Int64Builder::with_capacity(capacity) }
    }

    /// Calls `PrimitiveBuilder::append_value`: `v` is added at the end.
    #[verifier::external_body]
    pub(crate) fn append_value(&mut self, v: i64)
        ensures
            i64_column(*final(self)) == i64_column(*old(self)).push(v),
    {
        self.builder.append_value(v);
    }

    /// Calls `ArrayBuilder::len`: the number of values appended.
    #[verifier::external_body]
    pub(crate) fn len(&self) -> (r: usize)
        ensures
            r == i64_column(*self).len(),
    {
        ArrayBuilder::len(&self.builder)
    }

    /// Calls `PrimitiveBuilder::finish`: the array holds the values appended
    /// so far, and the builder is left empty.
    #[verifier::external_body]
    pub(crate) fn finish(&mut self) -> (r: I64Values)
        ensures
            i64_values(r) == i64_column(*old(self)),
            i64_column(*final(self)) == Seq::<i64>::empty(),
    {
        I64Values { array: self.builder.finish() }
    }
}

impl I8Column {
    /// Calls `PrimitiveBuilder::with_capacity`: an empty builder.
    #[verifier::external_body]
    pub(crate) fn with_capacity(capacity: usize) -> (r: Self)
        requires
            capacity_fits(capacity, 1),
        ensures
            i8_column(r) == Seq::<i8>::empty(),
    {
        I8Column { builder: Int8Builder::with_capacity(capacity) }
    }

    /// Calls `PrimitiveBuilder::append_value`: `v` is added at the end.
    #[verifier::external_body]
    pub(crate) fn append_value(&mut self, v: i8)
        ensures
            i8_column(*final(self)) == i8_column(*old(self)).push(v),
    {
        self.builder.append_value(v);
    }

    /// Calls `PrimitiveBuilder::finish`: the array holds the values appended
    /// so far, and the builder is left empty.
    #[verifier::external_body]
    pub(crate) fn finish(&mut self) -> (r: I8Values)
        ensures
            i8_values(r) == i8_column(*old(self)),
            i8_column(*final(self)) == Seq::<i8>::empty(),
    {
        I8Values { array: self.builder.finish() }
    }
}

impl U64Column {
    /// Calls `PrimitiveBuilder::with_capacity`: an empty builder.
    #[verifier::external_body]
    pub(crate) fn with_capacity(capacity: usize) -> (r: Self)
        requires
            capacity_fits(capacity, 8),
        ensures
            u64_column(r) == Seq::<u64>::empty(),
    {
        U64Column { builder: UInt64Builder::with_capacity(capacity) }
    }

    /// Calls `PrimitiveBuilder::append_value`: `v` is added at the end.
    #[verifier::external_body]
    pub(crate) fn append_value(&mut self, v: u64)
        ensures
            u64_column(*final(self)) == u64_column(*old(self)).push(v),
    {
        self.builder.append_value(v);
    }

    /// Calls `PrimitiveBuilder::finish`: the array holds the values appended
    /// so far, and the builder is left empty.
    #[verifier::external_body]
    pub(crate) fn finish(&mut self) -> (r: U64Values)
        ensures
            u64_values(r) == u64_column(*old(self)),
            u64_column(*final(self)) == Seq::<u64>::empty(),
    {
        U64Values { array: self.builder.finish() }
    }
}

impl U32Column {
    /// Calls `PrimitiveBuilder::with_capacity`: an empty builder.
    #[verifier::external_body]
    pub(crate) fn with_capacity(capacity: usize) -> (r: Self)
        requires
            capacity_fits(capacity, 4),
        ensures
            u32_column(r) == Seq::<u32>::empty(),
    {
        U32Column { builder: UInt32Builder::with_capacity(capacity) }
    }

    /// Calls `PrimitiveBuilder::append_value`: `v` is added at the end.
    #[verifier::external_body]
    pub(crate) fn append_value(&mut self, v: u32)
        ensures
            u32_column(*final(self)) == u32_column(*old(self)).push(v),
    {
        self.builder.append_value(v);
    }

    /// Calls `PrimitiveBuilder::finish`: the array holds the values appended
    /// so far, and the builder is left empty.
    #[verifier::external_body]
    pub(crate) fn finish(&mut self) -> (r: U32Values)
        ensures
            u32_values(r) == u32_column(*old(self)),
            u32_column(*final(self)) == Seq::<u32>::empty(),
    {
        U32Values { array: self.builder.finish() }
    }
}

} // verus!

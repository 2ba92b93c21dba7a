//! The three concrete 64-bit cells.
//!
//! Each cell owns one atomic word and is read and written only through
//! its own operations.  A cell's view is the value its word currently
//! holds; for [`AtomicF64`] the view is the IEEE-754 bit pattern of the
//! logical float, since the float itself is emulated on top of an
//! unsigned word.
//!
//! Every operation is total: nothing here returns an error or panics.
//! The integer `inc_by`/`dec_by` wrap on overflow, exactly as the
//! hardware fetch-add and fetch-sub do.

use crate::raw;
use vstd::prelude::*;
use vstd::wrapping::i64_specs;
use vstd::wrapping::u64_specs;

verus! {

/// The atomic cell abstraction: a mutable cell holding exactly one
/// numeric value, with construction, get, set, increment-by and
/// decrement-by.  Higher-level counters and gauges are written once
/// against this trait and specialized over a concrete cell.
///
/// A cell's view is the value it currently holds.  What an increment or
/// decrement does to that value is the implementor's business, pinned by
/// its `wrap_add_spec`/`wrap_sub_spec`: the integer cells wrap modulo
/// 2^64.  Every operation is total.
pub trait Atomic: View + Sized + Send + Sync {
    /// What `inc_by` does to the held value.
    spec fn wrap_add_spec(a: Self::V, b: Self::V) -> Self::V;

    /// What `dec_by` does to the held value.
    spec fn wrap_sub_spec(a: Self::V, b: Self::V) -> Self::V;

    /// Creates a cell holding `val`.
    fn new(val: Self::V) -> (r: Self)
        ensures
            r@ == val,
    ;

    /// Returns the value the cell currently holds.
    fn get(&self) -> (r: Self::V)
        ensures
            r == self@,
    ;

    /// Replaces the held value with `val`.
    fn set(&mut self, val: Self::V)
        ensures
            final(self)@ == val,
    ;

    /// Increments the held value by `delta`.
    fn inc_by(&mut self, delta: Self::V)
        ensures
            final(self)@ == Self::wrap_add_spec(old(self)@, delta),
    ;

    /// Decrements the held value by `delta`.
    fn dec_by(&mut self, delta: Self::V)
        ensures
            final(self)@ == Self::wrap_sub_spec(old(self)@, delta),
    ;
}

/// A cell holding one signed 64-bit integer.
pub struct AtomicI64 {
    inner: core::sync::atomic::AtomicI64,
}

impl View for AtomicI64 {
    type V = i64;

    closed spec fn view(&self) -> i64 {
        raw::stored_i64(self.inner)
    }
}

impl Atomic for AtomicI64 {
    open spec fn wrap_add_spec(a: i64, b: i64) -> i64 {
        i64_specs::wrapping_add(a, b)
    }

    open spec fn wrap_sub_spec(a: i64, b: i64) -> i64 {
        i64_specs::wrapping_sub(a, b)
    }

    /// Creates a cell holding `val`.
    fn new(val: i64) -> (r: AtomicI64)
        ensures
            r@ == val,
    {
        AtomicI64 { inner: raw::i64_word_new(val) }
    }

    /// Returns the value the cell currently holds.
    fn get(&self) -> (r: i64)
        ensures
            r == self@,
    {
        raw::i64_word_load(&self.inner)
    }

    /// Replaces the held value with `val`.
    fn set(&mut self, val: i64)
        ensures
            final(self)@ == val,
    {
        raw::i64_word_store(&mut self.inner, val);
    }

    /// Adds `delta` to the held value, wrapping on overflow.
    fn inc_by(&mut self, delta: i64)
        ensures
            final(self)@ == i64_specs::wrapping_add(old(self)@, delta),
    {
        raw::i64_word_fetch_add(&mut self.inner, delta);
    }

    /// Subtracts `delta` from the held value, wrapping on overflow.
    fn dec_by(&mut self, delta: i64)
        ensures
            final(self)@ == i64_specs::wrapping_sub(old(self)@, delta),
    {
        raw::i64_word_fetch_sub(&mut self.inner, delta);
    }
}

/// A cell holding one unsigned 64-bit integer.
pub struct AtomicU64 {
    inner: core::sync::atomic::AtomicU64,
}

impl View for AtomicU64 {
    type V = u64;

    closed spec fn view(&self) -> u64 {
        raw::stored_u64(self.inner)
    }
}

impl Atomic for AtomicU64 {
    open spec fn wrap_add_spec(a: u64, b: u64) -> u64 {
        u64_specs::wrapping_add(a, b)
    }

    open spec fn wrap_sub_spec(a: u64, b: u64) -> u64 {
        u64_specs::wrapping_sub(a, b)
    }

    /// Creates a cell holding `val`.
    fn new(val: u64) -> (r: AtomicU64)
        ensures
            r@ == val,
    {
        AtomicU64 { inner: raw::u64_word_new(val) }
    }

    /// Returns the value the cell currently holds.
    fn get(&self) -> (r: u64)
        ensures
            r == self@,
    {
        raw::u64_word_load(&self.inner)
    }

    /// Replaces the held value with `val`.
    fn set(&mut self, val: u64)
        ensures
            final(self)@ == val,
    {
        raw::u64_word_store(&mut self.inner, val);
    }

    /// Adds `delta` to the held value, wrapping on overflow.
    fn inc_by(&mut self, delta: u64)
        ensures
            final(self)@ == u64_specs::wrapping_add(old(self)@, delta),
    {
        raw::u64_word_fetch_add(&mut self.inner, delta);
    }

    /// Subtracts `delta` from the held value, wrapping on overflow.
    fn dec_by(&mut self, delta: u64)
        ensures
            final(self)@ == u64_specs::wrapping_sub(old(self)@, delta),
    {
        raw::u64_word_fetch_sub(&mut self.inner, delta);
    }
}

/// A cell holding one double-precision float as its IEEE-754 bit pattern.
///
/// No hardware atomic adds floats, so the float value lives in an
/// unsigned 64-bit word as its bit pattern, and an addition is emulated
/// outside this core as an optimistic retry loop: read the bits, compute
/// the new float, and call [`AtomicF64::compare_and_set_bits`]; when that
/// fails because the word changed underneath, read again and retry.  The
/// cell itself only moves bit patterns, which it does exactly; it never
/// interprets them, so NaN and infinity patterns pass through untouched.
pub struct AtomicF64 {
    inner: core::sync::atomic::AtomicU64,
}

impl View for AtomicF64 {
    type V = u64;

    closed spec fn view(&self) -> u64 {
        raw::stored_u64(self.inner)
    }
}

impl AtomicF64 {
    /// Creates a cell holding the float whose bit pattern is `bits`.
    pub fn new_bits(bits: u64) -> (r: AtomicF64)
        ensures
            r@ == bits,
    {
        AtomicF64 { inner: raw::u64_word_new(bits) }
    }

    /// Returns the bit pattern of the float the cell currently holds.
    pub fn get_bits(&self) -> (r: u64)
        ensures
            r == self@,
    {
        raw::u64_word_load(&self.inner)
    }

    /// Replaces the held float with the one whose bit pattern is `bits`.
    pub fn set_bits(&mut self, bits: u64)
        ensures
            final(self)@ == bits,
    {
        raw::u64_word_store(&mut self.inner, bits);
    }

    /// One compare-and-swap step of an emulated float update: installs
    /// `desired` exactly when the cell still holds `expected`, and
    /// reports whether it did.  On failure the cell is unchanged and the
    /// caller re-reads and retries.
    pub fn compare_and_set_bits(&mut self, expected: u64, desired: u64) -> (r: bool)
        ensures
            r == (old(self)@ == expected),
            r ==> final(self)@ == desired,
            !r ==> final(self)@ == old(self)@,
    {
        raw::u64_word_compare_exchange(&mut self.inner, expected, desired)
    }
}

} // verus!

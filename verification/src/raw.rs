//! The trusted boundary around the two std 64-bit atomic word types.
//!
//! vstd declares `core::sync::atomic::AtomicI64` and `AtomicU64` but says
//! nothing about the values inside them.  This module gives each word's
//! content a name (`stored_i64`, `stored_u64`) and wraps every std atomic
//! operation the cells use in a function whose contract states, over that
//! name, what std documents the operation to do.  The mutating wrappers
//! take the word exclusively, so within verified code the named content
//! changes only through them.
//!
//! Memory orderings follow the minimal scheme a single scalar needs:
//! plain loads and stores and the integer fetch-add/fetch-sub are
//! relaxed; the compare-exchange used for the emulated float update is
//! acquire/release, so a retry can re-read safely and a success
//! publishes the new value.

use vstd::prelude::*;
use vstd::wrapping::i64_specs;
use vstd::wrapping::u64_specs;

verus! {

/// The value currently held in a signed 64-bit atomic word.
pub uninterp spec fn stored_i64(a: core::sync::atomic::AtomicI64) -> i64;

/// The value currently held in an unsigned 64-bit atomic word.
pub uninterp spec fn stored_u64(a: core::sync::atomic::AtomicU64) -> u64;

/// Relies on `core::sync::atomic::AtomicI64::new`: the new word holds `v`.
#[verifier::external_body]
pub(crate) fn i64_word_new(v: i64) -> (r: core::sync::atomic::AtomicI64)
    ensures
        stored_i64(r) == v,
{
    core::sync::atomic::AtomicI64::new(v)
}

/// Relies on `core::sync::atomic::AtomicI64::load`: returns the held value.
#[verifier::external_body]
pub(crate) fn i64_word_load(a: &core::sync::atomic::AtomicI64) -> (r: i64)
    ensures
        r == stored_i64(*a),
{
    a.load(core::sync::atomic::Ordering::Relaxed)
}

/// Relies on `core::sync::atomic::AtomicI64::store`: the word holds `v` afterwards.
#[verifier::external_body]
pub(crate) fn i64_word_store(a: &mut core::sync::atomic::AtomicI64, v: i64)
    ensures
        stored_i64(*final(a)) == v,
{
    a.store(v, core::sync::atomic::Ordering::Relaxed)
}

/// Relies on `core::sync::atomic::AtomicI64::fetch_add`: adds with wrap-around
/// on overflow and returns the previous value.
#[verifier::external_body]
pub(crate) fn i64_word_fetch_add(a: &mut core::sync::atomic::AtomicI64, d: i64) -> (r: i64)
    ensures
        r == stored_i64(*old(a)),
        stored_i64(*final(a)) == i64_specs::wrapping_add(stored_i64(*old(a)), d),
{
    a.fetch_add(d, core::sync::atomic::Ordering::Relaxed)
}

/// Relies on `core::sync::atomic::AtomicI64::fetch_sub`: subtracts with
/// wrap-around on overflow and returns the previous value.
#[verifier::external_body]
pub(crate) fn i64_word_fetch_sub(a: &mut core::sync::atomic::AtomicI64, d: i64) -> (r: i64)
    ensures
        r == stored_i64(*old(a)),
        stored_i64(*final(a)) == i64_specs::wrapping_sub(stored_i64(*old(a)), d),
{
    a.fetch_sub(d, core::sync::atomic::Ordering::Relaxed)
}

/// Relies on `core::sync::atomic::AtomicU64::new`: the new word holds `v`.
#[verifier::external_body]
pub(crate) fn u64_word_new(v: u64) -> (r: core::sync::atomic::AtomicU64)
    ensures
        stored_u64(r) == v,
{
    core::sync::atomic::AtomicU64::new(v)
}

/// Relies on `core::sync::atomic::AtomicU64::load`: returns the held value.
#[verifier::external_body]
pub(crate) fn u64_word_load(a: &core::sync::atomic::AtomicU64) -> (r: u64)
    ensures
        r == stored_u64(*a),
{
    a.load(core::sync::atomic::Ordering::Relaxed)
}

/// Relies on `core::sync::atomic::AtomicU64::store`: the word holds `v` afterwards.
#[verifier::external_body]
pub(crate) fn u64_word_store(a: &mut core::sync::atomic::AtomicU64, v: u64)
    ensures
        stored_u64(*final(a)) == v,
{
    a.store(v, core::sync::atomic::Ordering::Relaxed)
}

/// Relies on `core::sync::atomic::AtomicU64::fetch_add`: adds with wrap-around
/// on overflow and returns the previous value.
#[verifier::external_body]
pub(crate) fn u64_word_fetch_add(a: &mut core::sync::atomic::AtomicU64, d: u64) -> (r: u64)
    ensures
        r == stored_u64(*old(a)),
        stored_u64(*final(a)) == u64_specs::wrapping_add(stored_u64(*old(a)), d),
{
    a.fetch_add(d, core::sync::atomic::Ordering::Relaxed)
}

/// Relies on `core::sync::atomic::AtomicU64::fetch_sub`: subtracts with
/// wrap-around on overflow and returns the previous value.
#[verifier::external_body]
pub(crate) fn u64_word_fetch_sub(a: &mut core::sync::atomic::AtomicU64, d: u64) -> (r: u64)
    ensures
        r == stored_u64(*old(a)),
        stored_u64(*final(a)) == u64_specs::wrapping_sub(stored_u64(*old(a)), d),
{
    a.fetch_sub(d, core::sync::atomic::Ordering::Relaxed)
}

/// Relies on `core::sync::atomic::AtomicU64::compare_exchange`: replaces the
/// held value with `new` exactly when it still equals `current`, and reports
/// whether it did.
#[verifier::external_body]
pub(crate) fn u64_word_compare_exchange(
    a: &mut core::sync::atomic::AtomicU64,
    current: u64,
    new: u64,
) -> (r: bool)
    ensures
        r == (stored_u64(*old(a)) == current),
        r ==> stored_u64(*final(a)) == new,
        !r ==> stored_u64(*final(a)) == stored_u64(*old(a)),
{
    a.compare_exchange(
        current,
        new,
        core::sync::atomic::Ordering::AcqRel,
        core::sync::atomic::Ordering::Acquire,
    ).is_ok()
}

} // verus!

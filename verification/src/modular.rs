//! The modular-arithmetic model of the integer cells.
//!
//! `inc_by` and `dec_by` on the integer cells wrap on overflow, exactly as
//! the hardware fetch-add and fetch-sub do.  Their contracts are stated
//! with `vstd::wrapping`'s spec functions; this module relates those
//! per-operation specs to reduction modulo 2^64 of the unbounded sum, so
//! that whole sequences of updates can be reasoned about at once.

use vstd::arithmetic::div_mod::lemma_add_mod_noop;
use vstd::arithmetic::div_mod::lemma_mod_multiples_vanish;
use vstd::arithmetic::div_mod::lemma_mod_twice;
use vstd::arithmetic::div_mod::lemma_small_mod;
use vstd::prelude::*;
use vstd::wrapping::i64_specs;
use vstd::wrapping::u64_specs;

verus! {

/// Reduction of an unbounded integer into the unsigned 64-bit range,
/// i.e. the two's-complement bit pattern read as unsigned.
pub open spec fn u64_crop(x: int) -> u64 {
    (x % 0x1_0000_0000_0000_0000) as u64
}

/// `signed_crop` from vstd, under a local name: reduction of an
/// unbounded integer into the signed 64-bit range.
pub open spec fn i64_crop(x: int) -> i64 {
    i64_specs::signed_crop(x)
}

/// An integer already in the signed 64-bit range is its own reduction.
pub proof fn lemma_i64_crop_in_range(x: int)
    requires
        i64::MIN <= x <= i64::MAX,
    ensures
        i64_crop(x) == x,
{
    if 0 <= x {
        lemma_small_mod(x as nat, 0x1_0000_0000_0000_0000);
    } else {
        lemma_mod_multiples_vanish(1, x, 0x1_0000_0000_0000_0000);
        lemma_small_mod((x + 0x1_0000_0000_0000_0000) as nat, 0x1_0000_0000_0000_0000);
    }
}

/// An integer already in the unsigned 64-bit range is its own reduction.
pub proof fn lemma_u64_crop_in_range(x: int)
    requires
        0 <= x <= u64::MAX,
    ensures
        u64_crop(x) == x,
{
    lemma_small_mod(x as nat, 0x1_0000_0000_0000_0000);
}

/// The signed reduction keeps the residue modulo 2^64.
proof fn lemma_i64_crop_residue(x: int)
    ensures
        (i64_crop(x) as int) % 0x1_0000_0000_0000_0000 == x % 0x1_0000_0000_0000_0000,
{
    lemma_mod_twice(x, 0x1_0000_0000_0000_0000);
    lemma_mod_multiples_vanish(-1, x % 0x1_0000_0000_0000_0000, 0x1_0000_0000_0000_0000);
}

/// The unsigned reduction keeps the residue modulo 2^64.
proof fn lemma_u64_crop_residue(x: int)
    ensures
        (u64_crop(x) as int) % 0x1_0000_0000_0000_0000 == x % 0x1_0000_0000_0000_0000,
{
    lemma_mod_twice(x, 0x1_0000_0000_0000_0000);
}

/// Adding after reducing gives the same reduction as adding first:
/// the signed reduction composes with addition.
pub proof fn lemma_i64_crop_add(x: int, d: int)
    ensures
        i64_crop(i64_crop(x) + d) == i64_crop(x + d),
{
    let m: int = 0x1_0000_0000_0000_0000;
    lemma_i64_crop_residue(x);
    lemma_add_mod_noop(i64_crop(x) as int, d, m);
    lemma_add_mod_noop(x, d, m);
}

/// The unsigned reduction composes with addition in the same way.
pub proof fn lemma_u64_crop_add(x: int, d: int)
    ensures
        u64_crop(u64_crop(x) + d) == u64_crop(x + d),
{
    let m: int = 0x1_0000_0000_0000_0000;
    lemma_u64_crop_residue(x);
    lemma_add_mod_noop(u64_crop(x) as int, d, m);
    lemma_add_mod_noop(x, d, m);
}

/// One wrapping addition is the reduction of the exact sum.
pub proof fn lemma_i64_wrapping_add_is_crop(x: i64, d: i64)
    ensures
        i64_specs::wrapping_add(x, d) == i64_crop(x + d),
{
    let m: int = 0x1_0000_0000_0000_0000;
    if x + d > i64::MAX {
        lemma_small_mod((x + d) as nat, m as nat);
    } else if x + d < i64::MIN {
        lemma_mod_multiples_vanish(1, x + d, m);
        lemma_small_mod((x + d + m) as nat, m as nat);
    } else {
        lemma_i64_crop_in_range(x + d);
    }
}

/// One wrapping subtraction is the reduction of the exact difference.
pub proof fn lemma_i64_wrapping_sub_is_crop(x: i64, d: i64)
    ensures
        i64_specs::wrapping_sub(x, d) == i64_crop(x - d),
{
    let m: int = 0x1_0000_0000_0000_0000;
    if x - d > i64::MAX {
        lemma_small_mod((x - d) as nat, m as nat);
    } else if x - d < i64::MIN {
        lemma_mod_multiples_vanish(1, x - d, m);
        lemma_small_mod((x - d + m) as nat, m as nat);
    } else {
        lemma_i64_crop_in_range(x - d);
    }
}

/// One wrapping addition is the reduction of the exact sum.
pub proof fn lemma_u64_wrapping_add_is_crop(x: u64, d: u64)
    ensures
        u64_specs::wrapping_add(x, d) == u64_crop(x + d),
{
    let m: int = 0x1_0000_0000_0000_0000;
    if x + d > u64::MAX {
        lemma_mod_multiples_vanish(-1, x + d, m);
        lemma_small_mod((x + d - m) as nat, m as nat);
    } else {
        lemma_small_mod((x + d) as nat, m as nat);
    }
}

/// One wrapping subtraction is the reduction of the exact difference.
pub proof fn lemma_u64_wrapping_sub_is_crop(x: u64, d: u64)
    ensures
        u64_specs::wrapping_sub(x, d) == u64_crop(x - d),
{
    let m: int = 0x1_0000_0000_0000_0000;
    if x - d < 0 {
        lemma_mod_multiples_vanish(1, x - d, m);
        lemma_small_mod((x - d + m) as nat, m as nat);
    } else {
        lemma_small_mod((x - d) as nat, m as nat);
    }
}

/// One update applied to a signed 64-bit cell: an increment or a
/// decrement by a delta, the two write operations besides `set`.
pub enum I64Update {
    Inc(i64),
    Dec(i64),
}

/// One update applied to an unsigned 64-bit cell.
pub enum U64Update {
    Inc(u64),
    Dec(u64),
}

/// The exact, unbounded sum of a sequence of updates: increments count
/// positively, decrements negatively.
pub open spec fn i64_update_net(ops: Seq<I64Update>) -> int
    decreases ops.len(),
{
    if ops.len() == 0 {
        0
    } else {
        i64_update_net(ops.drop_last()) + match ops.last() {
            I64Update::Inc(d) => d as int,
            I64Update::Dec(d) => -(d as int),
        }
    }
}

/// The exact, unbounded sum of a sequence of updates.
pub open spec fn u64_update_net(ops: Seq<U64Update>) -> int
    decreases ops.len(),
{
    if ops.len() == 0 {
        0
    } else {
        u64_update_net(ops.drop_last()) + match ops.last() {
            U64Update::Inc(d) => d as int,
            U64Update::Dec(d) => -(d as int),
        }
    }
}

/// The value a signed cell holds after the updates run in order,
/// starting from `x`: each step is exactly what one `inc_by` or `dec_by`
/// call does per its contract.
pub open spec fn i64_apply_updates(x: i64, ops: Seq<I64Update>) -> i64
    decreases ops.len(),
{
    if ops.len() == 0 {
        x
    } else {
        match ops.last() {
            I64Update::Inc(d) => i64_specs::wrapping_add(i64_apply_updates(x, ops.drop_last()), d),
            I64Update::Dec(d) => i64_specs::wrapping_sub(i64_apply_updates(x, ops.drop_last()), d),
        }
    }
}

/// The value an unsigned cell holds after the updates run in order.
pub open spec fn u64_apply_updates(x: u64, ops: Seq<U64Update>) -> u64
    decreases ops.len(),
{
    if ops.len() == 0 {
        x
    } else {
        match ops.last() {
            U64Update::Inc(d) => u64_specs::wrapping_add(u64_apply_updates(x, ops.drop_last()), d),
            U64Update::Dec(d) => u64_specs::wrapping_sub(u64_apply_updates(x, ops.drop_last()), d),
        }
    }
}

/// No update is ever lost: a run of increments and decrements leaves the
/// signed cell at the reduction of the exact sum `x + net`, whatever
/// order the updates arrived in and however often they wrapped.
pub proof fn lemma_i64_apply_updates(x: i64, ops: Seq<I64Update>)
    ensures
        i64_apply_updates(x, ops) == i64_crop(x + i64_update_net(ops)),
    decreases ops.len(),
{
    if ops.len() == 0 {
        lemma_i64_crop_in_range(x as int);
    } else {
        let prefix = ops.drop_last();
        lemma_i64_apply_updates(x, prefix);
        let p = i64_apply_updates(x, prefix);
        match ops.last() {
            I64Update::Inc(d) => {
                lemma_i64_wrapping_add_is_crop(p, d);
                lemma_i64_crop_add(x + i64_update_net(prefix), d as int);
            },
            I64Update::Dec(d) => {
                lemma_i64_wrapping_sub_is_crop(p, d);
                lemma_i64_crop_add(x + i64_update_net(prefix), -(d as int));
            },
        }
    }
}

/// No update is ever lost: the unsigned counterpart of
/// [`lemma_i64_apply_updates`].
pub proof fn lemma_u64_apply_updates(x: u64, ops: Seq<U64Update>)
    ensures
        u64_apply_updates(x, ops) == u64_crop(x + u64_update_net(ops)),
    decreases ops.len(),
{
    if ops.len() == 0 {
        lemma_u64_crop_in_range(x as int);
    } else {
        let prefix = ops.drop_last();
        lemma_u64_apply_updates(x, prefix);
        let p = u64_apply_updates(x, prefix);
        match ops.last() {
            U64Update::Inc(d) => {
                lemma_u64_wrapping_add_is_crop(p, d);
                lemma_u64_crop_add(x + u64_update_net(prefix), d as int);
            },
            U64Update::Dec(d) => {
                lemma_u64_wrapping_sub_is_crop(p, d);
                lemma_u64_crop_add(x + u64_update_net(prefix), -(d as int));
            },
        }
    }
}

/// Balanced updates cancel: when the increments and decrements in a run
/// sum to zero, the signed cell ends exactly where it started.
pub proof fn lemma_i64_balanced_updates(x: i64, ops: Seq<I64Update>)
    requires
        i64_update_net(ops) == 0,
    ensures
        i64_apply_updates(x, ops) == x,
{
    lemma_i64_apply_updates(x, ops);
    lemma_i64_crop_in_range(x as int);
}

/// Balanced updates cancel on the unsigned cell as well.
pub proof fn lemma_u64_balanced_updates(x: u64, ops: Seq<U64Update>)
    requires
        u64_update_net(ops) == 0,
    ensures
        u64_apply_updates(x, ops) == x,
{
    lemma_u64_apply_updates(x, ops);
    lemma_u64_crop_in_range(x as int);
}

/// Monotonic accumulation: `n` increments by one starting from zero
/// leave the unsigned cell holding exactly `n`, as long as `n` fits in
/// the word.
pub proof fn lemma_u64_counted_increments(n: nat)
    requires
        n <= u64::MAX,
    ensures
        u64_apply_updates(0, Seq::new(n, |i: int| U64Update::Inc(1))) == n,
    decreases n,
{
    let ops = Seq::new(n, |i: int| U64Update::Inc(1u64));
    if n == 0 {
    } else {
        assert(ops.drop_last() =~= Seq::new((n - 1) as nat, |i: int| U64Update::Inc(1u64)));
        lemma_u64_counted_increments((n - 1) as nat);
        assert(u64_apply_updates(0, ops)
            == u64_specs::wrapping_add(((n - 1) as nat) as u64, 1u64));
    }
}

/// Monotonic accumulation on the signed cell: `n` increments by one
/// starting from zero leave it holding exactly `n`, as long as `n` fits.
pub proof fn lemma_i64_counted_increments(n: nat)
    requires
        n <= i64::MAX,
    ensures
        i64_apply_updates(0, Seq::new(n, |i: int| I64Update::Inc(1))) == n,
    decreases n,
{
    let ops = Seq::new(n, |i: int| I64Update::Inc(1i64));
    if n == 0 {
    } else {
        assert(ops.drop_last() =~= Seq::new((n - 1) as nat, |i: int| I64Update::Inc(1i64)));
        lemma_i64_counted_increments((n - 1) as nat);
        assert(i64_apply_updates(0, ops)
            == i64_specs::wrapping_add(((n - 1) as nat) as i64, 1i64));
    }
}

} // verus!

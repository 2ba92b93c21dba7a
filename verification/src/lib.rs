//! Lock-free 64-bit numeric storage cells, the mutable state behind
//! metrics counters and gauges.
//!
//! Three cell types share one shape: a single 64-bit atomic word with
//! `new`, `get`, `set`, `inc_by` and `dec_by` operations.  [`AtomicI64`]
//! and [`AtomicU64`] hold integers and wrap on overflow, as the hardware
//! fetch-add does.  [`AtomicF64`] holds the bit pattern of a
//! double-precision float in an unsigned word and exposes the
//! compare-and-swap step that an emulated float addition is built from;
//! the float arithmetic itself lives outside the verified core.

mod raw;

pub mod cells;
pub mod modular;

pub use cells::Atomic;
pub use cells::AtomicF64;
pub use cells::AtomicI64;
pub use cells::AtomicU64;

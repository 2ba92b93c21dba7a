use atomic64::Atomic;
use atomic64::AtomicF64;
use atomic64::AtomicI64;
use atomic64::AtomicU64;

/// Emulated float addition: the optimistic retry loop over the bit cell.
fn f64_inc_by(cell: &mut AtomicF64, delta: f64) {
    loop {
        let current: u64 = cell.get_bits();
        let new: f64 = f64::from_bits(current) + delta;
        if cell.compare_and_set_bits(current, new.to_bits()) {
            return;
        }
    }
}

#[test]
fn test_atomic_f64() {
    let table: Vec<f64> = vec![0.0, 1.0, std::f64::consts::PI, f64::MIN, f64::MAX];

    for f in table {
        let cell = AtomicF64::new_bits(f.to_bits());
        let got: f64 = f64::from_bits(cell.get_bits());
        assert!((f - got).abs() < f64::EPSILON);
    }
}

#[test]
fn test_atomic_i64() {
    let mut ai64 = AtomicI64::new(0);
    assert_eq!(ai64.get(), 0);

    ai64.inc_by(1);
    assert_eq!(ai64.get(), 1);

    ai64.inc_by(-5);
    assert_eq!(ai64.get(), -4);
}

#[test]
fn test_atomic_u64() {
    let mut au64 = AtomicU64::new(0);
    assert_eq!(au64.get(), 0);

    au64.inc_by(123);
    assert_eq!(au64.get(), 123);
}

#[test]
fn identity_i64_extremes() {
    assert_eq!(AtomicI64::new(i64::MIN).get(), i64::MIN);
    assert_eq!(AtomicI64::new(i64::MAX).get(), i64::MAX);
    assert_eq!(AtomicI64::new(-1).get(), -1);
}

#[test]
fn identity_u64_extremes() {
    assert_eq!(AtomicU64::new(u64::MAX).get(), u64::MAX);
    assert_eq!(AtomicU64::new(1u64 << 63).get(), 1u64 << 63);
}

#[test]
fn set_replaces_value() {
    let mut cell = AtomicI64::new(7);
    cell.set(-42);
    assert_eq!(cell.get(), -42);

    let mut cell = AtomicU64::new(7);
    cell.set(u64::MAX);
    assert_eq!(cell.get(), u64::MAX);
}

#[test]
fn inc_dec_wrap_i64() {
    let mut cell = AtomicI64::new(i64::MAX);
    cell.inc_by(1);
    assert_eq!(cell.get(), i64::MIN);

    let mut cell = AtomicI64::new(i64::MIN);
    cell.dec_by(1);
    assert_eq!(cell.get(), i64::MAX);

    let mut cell = AtomicI64::new(-3);
    cell.inc_by(10);
    assert_eq!(cell.get(), 7);
    cell.inc_by(0);
    assert_eq!(cell.get(), 7);
    cell.dec_by(-2);
    assert_eq!(cell.get(), 9);
}

#[test]
fn inc_dec_wrap_u64() {
    let mut cell = AtomicU64::new(u64::MAX);
    cell.inc_by(1);
    assert_eq!(cell.get(), 0);

    let mut cell = AtomicU64::new(0);
    cell.dec_by(5);
    assert_eq!(cell.get(), u64::MAX - 4);

    let mut cell = AtomicU64::new(10);
    cell.inc_by(0);
    assert_eq!(cell.get(), 10);
}

#[test]
fn balanced_updates_cancel() {
    let mut cell = AtomicI64::new(17);
    cell.inc_by(i64::MAX);
    cell.inc_by(3);
    cell.dec_by(i64::MAX);
    cell.dec_by(3);
    assert_eq!(cell.get(), 17);

    let mut cell = AtomicU64::new(999);
    cell.inc_by(u64::MAX);
    cell.dec_by(1);
    cell.dec_by(u64::MAX - 1);
    assert_eq!(cell.get(), 999);
}

#[test]
fn repeated_increments_accumulate() {
    let mut ai = AtomicI64::new(0);
    let mut au = AtomicU64::new(0);
    for _ in 0..1000 {
        ai.inc_by(1);
        au.inc_by(1);
    }
    assert_eq!(ai.get(), 1000);
    assert_eq!(au.get(), 1000);
}

#[test]
fn float_bits_round_trip() {
    let table: Vec<f64> = vec![
        0.0,
        -0.0,
        5e-324,
        f64::MIN_POSITIVE,
        f64::MIN,
        f64::MAX,
        f64::INFINITY,
        f64::NEG_INFINITY,
        f64::NAN,
    ];

    for f in table {
        let cell = AtomicF64::new_bits(f.to_bits());
        assert_eq!(cell.get_bits(), f.to_bits());
    }
}

#[test]
fn float_set_bits() {
    let mut cell = AtomicF64::new_bits(0.0f64.to_bits());
    cell.set_bits(2.5f64.to_bits());
    assert_eq!(f64::from_bits(cell.get_bits()), 2.5);
}

#[test]
fn float_compare_and_set() {
    let mut cell = AtomicF64::new_bits(1.5f64.to_bits());

    let missed = cell.compare_and_set_bits(2.0f64.to_bits(), 9.0f64.to_bits());
    assert!(!missed);
    assert_eq!(f64::from_bits(cell.get_bits()), 1.5);

    let hit = cell.compare_and_set_bits(1.5f64.to_bits(), 9.0f64.to_bits());
    assert!(hit);
    assert_eq!(f64::from_bits(cell.get_bits()), 9.0);
}

#[test]
fn float_emulated_additions() {
    let mut cell = AtomicF64::new_bits(1.5f64.to_bits());
    f64_inc_by(&mut cell, 2.25);
    assert_eq!(f64::from_bits(cell.get_bits()), 3.75);

    f64_inc_by(&mut cell, -3.75);
    assert_eq!(f64::from_bits(cell.get_bits()), 0.0);

    let mut acc = AtomicF64::new_bits(0.0f64.to_bits());
    for _ in 0..1000 {
        f64_inc_by(&mut acc, 1.0);
    }
    assert_eq!(f64::from_bits(acc.get_bits()), 1000.0);
}

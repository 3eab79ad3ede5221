use sim_core::runner::{cap_ticks, frame_ticks, normalize_stride, telemetry_due, MAX_TICKS_PER_ITERATION};
use sim_core::sensors::{seed_for, XorShift64, ZERO_SEED_REPLACEMENT};

fn reference_step(mut x: u64) -> u64 {
    x ^= x << 13;
    x ^= x >> 7;
    x ^= x << 17;
    x
}

#[test]
fn xorshift_matches_reference_sequence() {
    let mut rng = XorShift64::new(42);
    assert_eq!(rng.state(), 42);
    let mut x = 42u64;
    for _ in 0..1000 {
        x = reference_step(x);
        assert_eq!(rng.next_u64(), x);
        assert_ne!(x, 0);
    }
    // First draw from seed 1 by hand: 1 ^ 1<<13 = 0x2001; ^ >>7 = 0x2041; ^ <<17.
    let mut one = XorShift64::new(1);
    assert_eq!(one.next_u64(), 0x2041 ^ (0x2041u64 << 17));
}

#[test]
fn zero_seed_is_replaced() {
    let rng = XorShift64::new(0);
    assert_eq!(rng.state(), ZERO_SEED_REPLACEMENT);
    assert_ne!(rng.state(), 0);
}

#[test]
fn bits53_are_top_bits() {
    let mut a = XorShift64::new(7);
    let mut b = XorShift64::new(7);
    let top = a.next_bits53();
    let full = b.next_u64();
    assert_eq!(top, full >> 11);
    assert!(top < (1u64 << 53));
    assert_eq!(a.state(), b.state());
}

#[test]
fn determinism_replay_under_noise() {
    let t = 12.5f64.to_bits();
    let s1 = seed_for(t, 399);
    let s2 = seed_for(t, 399);
    assert_eq!(s1, s2);
    assert_ne!(seed_for(t, 399), seed_for(t, 499));
    assert_ne!(seed_for(t, 399), seed_for(12.6f64.to_bits(), 399));
    let mut r1 = XorShift64::new(s1);
    let mut r2 = XorShift64::new(s2);
    for _ in 0..100 {
        assert_eq!(r1.next_u64(), r2.next_u64());
    }
}

#[test]
fn seed_mix_exact_value() {
    let k1: u64 = 0xBF58_476D_1CE4_E5B9;
    let k2: u64 = 0x94D0_49BB_1331_11EB;
    let t: u64 = 0x4029_0000_0000_0000; // 12.5
    let salt: u64 = 10;
    let mut s = t.wrapping_mul(k1);
    s ^= salt.wrapping_add(k2);
    s = s.wrapping_mul(k1);
    let expected = s ^ (s >> 31);
    assert_eq!(seed_for(t, salt), expected);
    assert_eq!(seed_for(0, 0), {
        let s = k2.wrapping_mul(k1);
        s ^ (s >> 31)
    });
}

#[test]
fn tick_cap_and_stride() {
    assert_eq!(cap_ticks(10), 10);
    assert_eq!(cap_ticks(MAX_TICKS_PER_ITERATION), 50_000);
    assert_eq!(cap_ticks(u32::MAX), 50_000);
    assert_eq!(normalize_stride(0), 1);
    assert_eq!(normalize_stride(20), 20);
    assert!(telemetry_due(40, 20));
    assert!(!telemetry_due(41, 20));
    assert!(telemetry_due(0, 7));
    assert!(telemetry_due(5, 1));
}

#[test]
fn frame_schedule() {
    assert_eq!(frame_ticks(100, 0, 10), vec![100]);
    assert_eq!(frame_ticks(95, 30, 10), vec![100, 110, 120]);
    assert_eq!(frame_ticks(0, 5, 1), vec![1, 2, 3, 4, 5]);
    assert_eq!(frame_ticks(1, 3, 10), Vec::<u64>::new());
}

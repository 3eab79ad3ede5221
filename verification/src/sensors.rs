//! Deterministic noise source of the synthetic sensor model.
//!
//! Sensor noise is drawn from a 64-bit xorshift generator seeded from the
//! bit pattern of the simulation time and a per-measurement salt (the body
//! id), never from the wall clock, so replays see identical samples. The
//! Gaussian shaping of the draws is floating-point work done by the host.

use vstd::prelude::*;

verus! {

/// Seed used in place of zero, which is a fixed point of xorshift.
pub const ZERO_SEED_REPLACEMENT: u64 = 0x9E37_79B9_7F4A_7C15;

/// Multiplier of the seed mix.
pub const SEED_MIX_MUL: u64 = 0xBF58_476D_1CE4_E5B9;

/// Offset added to the salt in the seed mix.
pub const SEED_MIX_SALT: u64 = 0x94D0_49BB_1331_11EB;

/// One xorshift64 (13, 7, 17) transition.
pub open spec fn xorshift_step(x: u64) -> u64 {
    let a = x ^ (x << 13u64);
    let b = a ^ (a >> 7u64);
    b ^ (b << 17u64)
}

/// State a generator starts from for a given seed.
pub open spec fn initial_state(seed: u64) -> u64 {
    if seed == 0 { ZERO_SEED_REPLACEMENT } else { seed }
}

/// Seed for the draws of one measurement at one tick, from the bit pattern
/// of the simulation time and a salt.
pub open spec fn seed_mix(time_bits: u64, salt: u64) -> u64 {
    let s1 = vstd::wrapping::u64_specs::wrapping_mul(time_bits, SEED_MIX_MUL);
    let s2 = s1 ^ vstd::wrapping::u64_specs::wrapping_add(salt, SEED_MIX_SALT);
    let s3 = vstd::wrapping::u64_specs::wrapping_mul(s2, SEED_MIX_MUL);
    s3 ^ (s3 >> 31u64)
}

/// Compact deterministic PRNG (xorshift64). Its state is never zero.
pub struct XorShift64 {
    state: u64,
}

impl View for XorShift64 {
    type V = u64;

    closed spec fn view(&self) -> u64 {
        self.state
    }
}

/// A nonzero state never steps to zero.
pub proof fn lemma_step_nonzero(x: u64)
    requires
        x != 0,
    ensures
        xorshift_step(x) != 0,
{
    assert(x != 0 ==> {
        let a = x ^ (x << 13u64);
        let b = a ^ (a >> 7u64);
        b ^ (b << 17u64) != 0
    }) by (bit_vector);
}

impl XorShift64 {
    #[verifier::type_invariant]
    spec fn state_nonzero(self) -> bool {
        self.state != 0
    }

    /// Generator seeded with `seed` (zero is replaced by a fixed odd constant).
    pub fn new(seed: u64) -> (r: Self)
        ensures
            r@ == initial_state(seed),
            r@ != 0,
    {
        XorShift64 { state: if seed == 0 { ZERO_SEED_REPLACEMENT } else { seed } }
    }

    /// Current state.
    pub fn state(&self) -> (s: u64)
        ensures
            s == self@,
            s != 0,
    {
        proof { use_type_invariant(self); }
        self.state
    }

    /// Advance the generator and return the new state as the draw.
    pub fn next_u64(&mut self) -> (x: u64)
        ensures
            x == xorshift_step(old(self)@),
            final(self)@ == x,
            x != 0,
    {
        proof {
            use_type_invariant(&*self);
            lemma_step_nonzero(self.state);
        }
        let mut x = self.state;
        x ^= x << 13u64;
        x ^= x >> 7u64;
        x ^= x << 17u64;
        self.state = x;
        x
    }

    /// The top 53 bits of the next draw, as an integer in `[0, 2^53)`; a
    /// uniform sample of `[0, 1)` is this value divided by `2^53`.
    pub fn next_bits53(&mut self) -> (r: u64)
        ensures
            final(self)@ == xorshift_step(old(self)@),
            r == xorshift_step(old(self)@) >> 11u64,
            r < 0x20_0000_0000_0000u64,
    {
        let x = self.next_u64();
        assert(x >> 11u64 < 0x20_0000_0000_0000u64) by (bit_vector);
        x >> 11u64
    }
}

/// Seed for one measurement at one tick: `time_bits` is the IEEE-754 bit
/// pattern of the simulation time, `salt` the body id (or a fixed tag for
/// the IMU and star tracker).
pub fn seed_for(time_bits: u64, salt: u64) -> (s: u64)
    ensures
        s == seed_mix(time_bits, salt),
{
    let mut s = time_bits.wrapping_mul(SEED_MIX_MUL);
    s ^= salt.wrapping_add(SEED_MIX_SALT);
    s = s.wrapping_mul(SEED_MIX_MUL);
    s ^ (s >> 31u64)
}

/// A generator starts from its seed, except that a zero seed is replaced by
/// the odd constant 0x9E3779B97F4A7C15; the seed mix multiplies by
/// 0xBF58476D1CE4E5B9 and offsets the salt by 0x94D049BB133111EB.
pub proof fn lemma_seeding(seed: u64)
    ensures
        seed != 0 ==> initial_state(seed) == seed,
        seed == 0 ==> initial_state(seed) == 0x9E37_79B9_7F4A_7C15u64,
        initial_state(seed) != 0,
        SEED_MIX_MUL == 0xBF58_476D_1CE4_E5B9u64,
        SEED_MIX_SALT == 0x94D0_49BB_1331_11EBu64,
{
}

/// The xorshift transition is linear over XOR, so it is fixed by where it
/// sends each single bit; the lowest bit goes to 0x40822041, the image the
/// (13, 7, 17) shifts give it.
pub proof fn lemma_xorshift_linear(x: u64, y: u64)
    ensures
        xorshift_step(x ^ y) == xorshift_step(x) ^ xorshift_step(y),
        xorshift_step(0) == 0,
        xorshift_step(1) == 0x4082_2041u64,
{
    assert(({
        let z = x ^ y;
        let a = z ^ (z << 13u64);
        let b = a ^ (a >> 7u64);
        b ^ (b << 17u64)
    }) == ({
        let a = x ^ (x << 13u64);
        let b = a ^ (a >> 7u64);
        b ^ (b << 17u64)
    }) ^ ({
        let a = y ^ (y << 13u64);
        let b = a ^ (a >> 7u64);
        b ^ (b << 17u64)
    })) by (bit_vector);
    assert(({
        let z = 0u64;
        let a = z ^ (z << 13u64);
        let b = a ^ (a >> 7u64);
        b ^ (b << 17u64)
    }) == 0u64) by (bit_vector);
    assert(({
        let z = 1u64;
        let a = z ^ (z << 13u64);
        let b = a ^ (a >> 7u64);
        b ^ (b << 17u64)
    }) == 0x4082_2041u64) by (bit_vector);
}

} // verus!

//! A small xorshift generator, so runs are reproducible and no extra crate is
//! needed just for spawn rolls.
//!
//! Every draw is a pure function of the state it starts from, which is what the
//! contracts below say: a draw is described by the state before it, and the
//! state after it is the next one in the xorshift sequence.
use vstd::prelude::*;

use crate::rounding::{round_to_float_precision, to_float_precision};

verus! {

/// The state a zero seed is replaced with. An all-zero xorshift state never
/// leaves zero.
pub const ZERO_SEED_STATE: u64 = 0x9E3779B97F4A7C15;

/// Denominator of the fractions `unit53` hands out: 2^53.
pub const UNIT_DENOMINATOR: u64 = 0x20_0000_0000_0000;

/// One step of the generator.
pub open spec fn xorshift(x: u64) -> u64 {
    let a = x ^ (x << 13u64);
    let b = a ^ (a >> 7u64);
    b ^ (b << 17u64)
}

/// What `Rng::new(seed)` starts from.
pub open spec fn seeded(seed: u64) -> u64 {
    if seed == 0 {
        ZERO_SEED_STATE
    } else {
        seed
    }
}

/// What `range(min, max)` returns from state `s`.
pub open spec fn range_value(s: u64, min: i32, max: i32) -> int {
    if max <= min {
        min as int
    } else {
        min + (xorshift(s) as int % (max - min + 1))
    }
}

/// The state after `range(min, max)` from state `s`. An empty range draws
/// nothing.
pub open spec fn range_state(s: u64, min: i32, max: i32) -> u64 {
    if max <= min {
        s
    } else {
        xorshift(s)
    }
}

/// The lowest bit of the next value, which is what `flip` reads.
pub open spec fn flip_value(s: u64) -> bool {
    xorshift(s) % 2 == 1
}

/// The top 53 bits of the next value: a fraction `unit_value(s) / 2^53`
/// in `[0, 1)`.
pub open spec fn unit_value(s: u64) -> int {
    (xorshift(s) as int) / 2048
}

/// One step never reaches zero from anywhere else: each of its three parts
/// keeps the lowest set bit (a left shift) or the highest (a right shift).
pub proof fn lemma_step_never_reaches_zero(x: u64)
    requires
        x != 0,
    ensures
        xorshift(x) != 0,
{
    assert(x != 0 ==> (x ^ (x << 13u64)) != 0) by (bit_vector);
    let a = x ^ (x << 13u64);
    assert(a != 0 ==> (a ^ (a >> 7u64)) != 0) by (bit_vector);
    let b = a ^ (a >> 7u64);
    assert(b != 0 ==> (b ^ (b << 17u64)) != 0) by (bit_vector);
}

/// A zero seed starts exactly where the fixed replacement state does, so it
/// gives the same run; every other seed is its own starting state.
pub proof fn lemma_zero_seed_runs_as_the_fixed_state(seed: u64)
    ensures
        seeded(0) == seeded(ZERO_SEED_STATE),
        seed != 0 ==> seeded(seed) == seed,
        seeded(seed) != 0,
{
}

/// The draw `unit` hands out from state `s`: the same fraction as
/// `unit_value`, held at the precision of a 32-bit float, which is the
/// precision every chance in the game is read at.
pub open spec fn float_unit_value(s: u64) -> int {
    to_float_precision(unit_value(s) as nat) as int
}

/// The generator. Its view is its state, which is never zero: a zero state
/// would stay zero for ever.
pub struct Rng {
    state: u64,
}

/// A generator is nothing but its state: two with the same state are the same
/// generator, so, every draw being a function of the state before it, two
/// built from the same seed give the same run, call for call.
pub proof fn lemma_same_state_same_generator(a: Rng, b: Rng)
    requires
        a@ == b@,
    ensures
        a == b,
{
}

impl Rng {
    #[verifier::type_invariant]
    spec fn nonzero(self) -> bool {
        self.state != 0
    }
}

impl View for Rng {
    type V = u64;

    closed spec fn view(&self) -> u64 {
        self.state
    }
}

impl Rng {
    pub fn new(seed: u64) -> (r: Self)
        ensures
            r@ == seeded(seed),
            r@ != 0,
    {
        Self { state: if seed == 0 { ZERO_SEED_STATE } else { seed } }
    }

    fn next_u64(&mut self) -> (x: u64)
        ensures
            x == xorshift(old(self)@),
            final(self)@ == x,
            old(self)@ != 0,
            x != 0,
    {
        proof {
            use_type_invariant(&*self);
            lemma_step_never_reaches_zero(self.state);
        }
        let mut x = self.state;
        x = x ^ (x << 13u64);
        x = x ^ (x >> 7u64);
        x = x ^ (x << 17u64);
        self.state = x;
        x
    }

    /// Inclusive on both ends.
    pub fn range(&mut self, min: i32, max: i32) -> (r: i32)
        requires
            max <= min || max - min + 1 <= i32::MAX,
        ensures
            r == range_value(old(self)@, min, max),
            final(self)@ == range_state(old(self)@, min, max),
            max <= min ==> r == min,
            min < max ==> min <= r <= max,
    {
        if max <= min {
            return min;
        }
        let span = (max - min + 1) as u64;
        let off = self.next_u64() % span;
        min + off as i32
    }

    pub fn flip(&mut self) -> (b: bool)
        ensures
            b == flip_value(old(self)@),
            final(self)@ == xorshift(old(self)@),
    {
        self.next_u64() % 2 == 1
    }

    /// A fresh 64-bit value, for seeding something else. It is never zero.
    pub fn next_seed(&mut self) -> (x: u64)
        ensures
            x == xorshift(old(self)@),
            final(self)@ == xorshift(old(self)@),
            x != 0,
    {
        self.next_u64()
    }

    /// The numerator of a uniform fraction over [`UNIT_DENOMINATOR`]: the top
    /// 53 bits of the next value, at full precision.
    pub fn unit53(&mut self) -> (u: u64)
        ensures
            u == unit_value(old(self)@),
            u < UNIT_DENOMINATOR,
            final(self)@ == xorshift(old(self)@),
    {
        let x = self.next_u64();
        assert(x >> 11u64 == x / 2048) by (bit_vector);
        x >> 11u64
    }

    /// A uniform draw in [0, 1] as a 32-bit float holds it, given as its
    /// numerator over [`UNIT_DENOMINATOR`]: the top 53 bits of the next value,
    /// rounded to 24 significant bits, ties to even. Rounding can carry the
    /// very top draws up to the whole denominator.
    pub fn unit(&mut self) -> (u: u64)
        ensures
            u == float_unit_value(old(self)@),
            u < 2 * UNIT_DENOMINATOR,
            final(self)@ == xorshift(old(self)@),
    {
        let raw = self.unit53();
        let r = round_to_float_precision(raw as u128);
        r as u64
    }
}

} // verus!

//! The shipped sound packs, as far as choosing between them goes.
//!
//! Both platforms need the same numbers, and a handheld has no business
//! carrying a JSON parser to learn them. The levels each pack bakes in are
//! decibels and belong to the frontend's mixer; what lives here is how many
//! packs there are, what their layers are called, and which one a run gets.
use vstd::prelude::*;
use vstd::wrapping::u64_specs::{wrapping_add, wrapping_mul};

verus! {

pub const SAMPLE_RATE: u32 = 44100;

/// How many packs ship.
pub const PACK_COUNT: usize = 2;

/// Roles, in the order the mixer is handed layer data. Every pack uses these
/// names whatever its source files were called - the build tool renames them
/// on the way out, so the runtime never has to know.
pub const LAYER_IDS: [&'static str; 6] = ["all_time", "leisure", "fight", "zombie", "garp", "boss"];

/// splitmix64's finaliser, as a formula.
pub open spec fn spec_mix(seed: u64) -> u64 {
    let a = wrapping_add(seed, 0x9E37_79B9_7F4A_7C15);
    let b = wrapping_mul(a ^ (a >> 30u64), 0xBF58_476D_1CE4_E5B9);
    let c = wrapping_mul(b ^ (b >> 27u64), 0x94D0_49BB_1331_11EB);
    c ^ (c >> 31u64)
}

/// splitmix64's finaliser: every input bit reaches every output bit, so a
/// clock that only ticks its high bits still spreads.
pub fn mix(seed: u64) -> (x: u64)
    ensures
        x == spec_mix(seed),
{
    let mut x = seed.wrapping_add(0x9E37_79B9_7F4A_7C15);
    x = (x ^ (x >> 30u64)).wrapping_mul(0xBF58_476D_1CE4_E5B9);
    x = (x ^ (x >> 27u64)).wrapping_mul(0x94D0_49BB_1331_11EB);
    x ^ (x >> 31u64)
}

/// Picks a pack for this run. Called once at startup, so a restart is what
/// rolls a new one.
///
/// The seed is hashed before the modulus rather than after. It comes from a
/// clock, and taking `seed % 2` reads only the bottom bit - which on a handheld
/// barely moves between launches.
pub fn choose_index(seed: u64) -> (i: usize)
    ensures
        i == (spec_mix(seed) as int) % (PACK_COUNT as int),
        i < PACK_COUNT,
{
    (mix(seed) % PACK_COUNT as u64) as usize
}

} // verus!

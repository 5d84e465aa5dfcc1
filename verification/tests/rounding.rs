use erect::charge::energy_needed;
use erect::recipe::BEHAVIOUR_CHANCE;
use erect::rng::{Rng, UNIT_DENOMINATOR};
use erect::rounding::round_to_float_precision;

/// A spread of numbers across every magnitude, including ties.
fn samples() -> Vec<u128> {
    let mut out = Vec::new();
    let mut rng = Rng::new(99);
    for shift in 0..100u32 {
        let base = 1u128 << shift;
        out.push(base);
        out.push(base + 1);
        out.push(base.saturating_sub(1));
        out.push(base + (base >> 24));
        out.push(base + (base >> 25));
        out.push(base + 3 * (base >> 25));
        let r = ((rng.next_seed() as u128) << 64 | rng.next_seed() as u128) >> (128 - shift.max(1));
        out.push(r);
    }
    out
}

#[test]
fn rounding_agrees_with_a_float() {
    for x in samples() {
        let expected = (x as f32) as u128;
        assert_eq!(round_to_float_precision(x), expected, "rounding {x}");
    }
}

#[test]
fn a_draw_is_the_fraction_a_float_holds() {
    let mut a = Rng::new(12345);
    let mut b = Rng::new(12345);
    for _ in 0..10_000 {
        let numerator = a.unit();
        let float = b.unit53() as f32 / UNIT_DENOMINATOR as f32;
        assert_eq!(numerator as f64, float as f64 * UNIT_DENOMINATOR as f64);
    }
}

#[test]
fn the_behaviour_chance_is_point_four_five_as_a_float() {
    assert_eq!(BEHAVIOUR_CHANCE as f64 / UNIT_DENOMINATOR as f64, 0.45f32 as f64);
}

#[test]
fn the_bar_is_sized_as_floats_size_it() {
    let mut rng = Rng::new(7);
    for _ in 0..2_000 {
        let wave = (rng.next_seed() % 2_000_000_000_000_000) as i64 - 1_000_000_000_000_000;
        let charges = (rng.next_seed() >> (rng.next_seed() % 64)) as i64 / 2;
        let attacks = (rng.next_seed() >> (rng.next_seed() % 64)) as i64 / 2;
        let raw = (25 + wave * 10) as f32 * ((charges + attacks) as f32 / 2.0);
        let expected = (raw as i64).max(1);
        assert_eq!(energy_needed(wave, charges, attacks), expected, "wave {wave}, {charges} + {attacks}");
    }
    // Past 2^24 the float's rounding shows: an odd count that large loses its
    // last bit.
    let big = (1i64 << 40) + 1;
    let raw = 35f32 * (big as f32 / 2.0);
    assert_eq!(energy_needed(1, big, 0), raw as i64);
}

use erect::rng::{Rng, UNIT_DENOMINATOR};

#[test]
fn the_generator_is_usable_in_its_low_bits() {
    let mut rng = Rng::new(1);
    let mut counts = [0usize; 4];
    const DRAWS: usize = 40_000;
    for _ in 0..DRAWS {
        counts[rng.range(0, 3) as usize] += 1;
    }
    let want = DRAWS / 4;
    for (value, seen) in counts.iter().enumerate() {
        let off = (*seen as i64 - want as i64).abs();
        assert!(off < want as i64 / 10, "range(0, 3) returned {value} {seen} times in {DRAWS}, wanted about {want}");
    }

    let mut rng = Rng::new(1);
    let heads = (0..DRAWS).filter(|_| rng.flip()).count();
    let off = (heads as i64 - want as i64 * 2).abs();
    assert!(off < DRAWS as i64 / 20, "flip came up heads {heads} times in {DRAWS}");
}

/* ---------------- further cases ---------------- */

#[test]
fn a_range_is_inclusive_and_a_backwards_one_gives_its_minimum() {
    let mut rng = Rng::new(42);
    let mut seen = [false; 5];
    for _ in 0..2000 {
        let r = rng.range(-2, 2);
        assert!((-2..=2).contains(&r));
        seen[(r + 2) as usize] = true;
    }
    assert!(seen.iter().all(|s| *s), "both ends should come up: {seen:?}");
    assert_eq!(rng.range(7, 7), 7);
    assert_eq!(rng.range(9, 3), 9);
}

#[test]
fn a_zero_seed_still_moves() {
    let mut rng = Rng::new(0);
    let first = rng.next_seed();
    let second = rng.next_seed();
    assert_ne!(first, 0);
    assert_ne!(first, second);
}

#[test]
fn the_first_draw_is_one_xorshift_step() {
    let mut rng = Rng::new(1);
    let mut x: u64 = 1;
    x ^= x << 13;
    x ^= x >> 7;
    x ^= x << 17;
    assert_eq!(rng.next_seed(), x);
    assert_eq!(x, 0x4082_2041);
}

#[test]
fn a_unit_draw_stays_under_its_denominator() {
    let mut rng = Rng::new(99);
    let mut high = 0u64;
    for _ in 0..10_000 {
        let u = rng.unit53();
        assert!(u < UNIT_DENOMINATOR);
        high = high.max(u);
    }
    assert!(high > UNIT_DENOMINATOR / 2, "the draws should spread over the range");
}

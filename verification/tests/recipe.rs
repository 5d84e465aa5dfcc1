use erect::config::{ELITE_FIRST_WAVE, ROLLED_BOSS_WAVE, SHEDDER_MIN_WAVE};
use erect::recipe::{unlock, MoveKind, Recipe, Size};
use erect::rng::Rng;

#[test]
fn rolling_reaches_every_corner_of_the_space() {
    let mut rng = Rng::new(20260819);
    let wave = 40;
    let (mut moves, mut sizes) = ([false; 4], [false; 4]);
    let (mut shot, mut blinked, mut shed, mut plain) = (false, false, false, false);
    for _ in 0..4000 {
        let r = Recipe::roll(wave, &mut rng);
        moves[MoveKind::ALL.iter().position(|m| *m == r.movement).unwrap()] = true;
        sizes[Size::ALL.iter().position(|s| *s == r.size).unwrap()] = true;
        shot |= r.shoot;
        blinked |= r.blink;
        shed |= r.shed;
        plain |= !r.shoot && !r.blink && !r.shed;
    }
    assert!(moves.iter().all(|m| *m), "some way of moving never came up");
    assert!(sizes.iter().all(|s| *s), "some size never came up");
    assert!(shot && blinked && shed, "some behaviour never came up");
    assert!(plain, "a plain one - just heavy - should be an ordinary outcome");
}

#[test]
fn a_rolled_enemy_only_carries_what_the_run_has_already_met() {
    let mut rng = Rng::new(6161);
    for _ in 0..4000 {
        let r = Recipe::roll(ELITE_FIRST_WAVE, &mut rng);
        assert!(!r.shoot, "a shooter has not been seen yet");
        assert!(!r.blink, "nor a blinker");
        assert!(!r.shed, "nor a shedder");
        assert!(!r.brood, "nor anything that makes more of itself");
    }
}

#[test]
fn each_trait_waits_for_the_enemy_it_belongs_to() {
    let cases: [(&str, i64, fn(&Recipe) -> bool); 6] = [
        ("hop", 3, |r| r.movement == MoveKind::Hop),
        ("leap", 4, |r| r.movement == MoveKind::Leap),
        ("boss size", 5, |r| r.size == Size::Large),
        ("brood", 7, |r| r.brood),
        ("blink", 8, |r| r.blink),
        ("shoot", 9, |r| r.shoot),
    ];
    for (name, at, held) in cases {
        let mut rng = Rng::new(at as u64 * 104_729 + 17);
        for _ in 0..4000 {
            assert!(!held(&Recipe::roll(at - 1, &mut rng)), "{name} came up a wave before the enemy that introduces it");
        }
        let mut rng = Rng::new(at as u64 * 104_729 + 17);
        let seen = (0..4000).any(|_| held(&Recipe::roll(at, &mut rng)));
        assert!(seen, "{name} never came up on the wave it unlocks");
    }
}

#[test]
fn a_shed_trait_waits_for_the_shedder_itself() {
    let mut rng = Rng::new(777);
    for _ in 0..4000 {
        assert!(!Recipe::roll(SHEDDER_MIN_WAVE - 1, &mut rng).shed, "a hazard was laid before the shedder ever appeared");
    }
    let mut rng = Rng::new(777);
    assert!((0..4000).any(|_| Recipe::roll(SHEDDER_MIN_WAVE, &mut rng).shed), "and never after it did");
}

#[test]
fn the_first_heavies_are_still_worth_meeting() {
    let mut rng = Rng::new(31415);
    let mut moves = [false; 4];
    let mut sizes = [false; 4];
    for _ in 0..4000 {
        let r = Recipe::roll(ELITE_FIRST_WAVE, &mut rng);
        moves[MoveKind::ALL.iter().position(|m| *m == r.movement).unwrap()] = true;
        sizes[Size::ALL.iter().position(|s| *s == r.size).unwrap()] = true;
    }
    assert!(moves.iter().all(|m| *m), "some way of moving is missing at wave six");
    assert!(sizes.iter().all(|s| *s), "some size is missing at wave six");
}

#[test]
fn a_rolled_boss_is_announced_as_what_it_actually_is() {
    let mut rng = Rng::new(99);
    for _ in 0..200 {
        let rolled = Recipe::roll(ROLLED_BOSS_WAVE, &mut rng);
        let named = rolled.as_boss();
        assert!(named.brood, "every one of them broods");
        assert!(!named.shed, "and none of them sheds");
        let label = named.label();
        assert!(label.contains("BROOD"), "the name hides the brood: {label}");
        assert!(!label.contains("TRAP"), "the name promises a hazard: {label}");
    }
}

/* ---------------- further cases ---------------- */

#[test]
fn a_label_reads_size_then_movement_then_each_behaviour() {
    let r = Recipe { movement: MoveKind::Hop, size: Size::Small, shoot: true, blink: false, shed: true, brood: true };
    let expected = format!("{} {} GUN TRAP BROOD", Size::Small.label(), MoveKind::Hop.label());
    assert_eq!(r.label(), expected);

    // A size without a name leaves no stray space in front.
    let plain = Recipe { movement: MoveKind::Run, size: Size::Normal, shoot: false, blink: false, shed: false, brood: false };
    let label = plain.label();
    assert!(!label.starts_with(' '), "{label:?}");
    assert!(label.ends_with(MoveKind::Run.label()), "{label:?}");
}

#[test]
fn the_same_seed_rolls_the_same_enemy() {
    let mut a = Rng::new(2024);
    let mut b = Rng::new(2024);
    for wave in 1..40 {
        assert_eq!(Recipe::roll(wave, &mut a), Recipe::roll(wave, &mut b));
    }
}

#[test]
fn an_opening_wave_rolls_nothing_but_the_basics() {
    let mut rng = Rng::new(3);
    for _ in 0..2000 {
        let r = Recipe::roll(1, &mut rng);
        assert!(r.movement == MoveKind::Run || r.movement == MoveKind::Fly, "{:?}", r.movement);
        assert!(r.size == Size::Normal || r.size == Size::Flyer, "{:?}", r.size);
        assert!(!r.shoot && !r.blink && !r.shed && !r.brood);
    }
    assert_eq!(unlock::SHED, SHEDDER_MIN_WAVE);
}

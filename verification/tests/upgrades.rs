use erect::attack::{AttackKind, HeightAnchor, MAX_LEVEL, ROSTER_LEN};
use erect::boon::{Boon, Boons, WallMod};
use erect::offer::{Offer, OFFER_ARM_TICKS};
use erect::rng::Rng;

#[test]
fn the_two_walls_replace_each_other() {
    let mut boons = Boons::default();
    boons.take(Boon::WallPull);
    assert_eq!(boons.wall, WallMod::Pull);
    assert!(boons.has(Boon::WallPull) && !boons.has(Boon::WallPush));

    boons.take(Boon::WallPush);
    assert_eq!(boons.wall, WallMod::Push);
    assert!(boons.has(Boon::WallPush) && !boons.has(Boon::WallPull));
}

/* ---------------- further cases ---------------- */

#[test]
fn taking_a_boon_twice_is_taking_it_once() {
    let mut once = Boons::default();
    once.take(Boon::Shield);
    let mut twice = once;
    twice.take(Boon::Shield);
    assert_eq!(once, twice);
    assert!(twice.has(Boon::Shield));
    assert!(!twice.has(Boon::DoubleJump));
}

#[test]
fn every_boon_has_a_name() {
    for boon in Boon::ALL {
        assert!(!boon.label().is_empty(), "{boon:?} has no name");
    }
}

#[test]
fn an_offer_holds_three_different_fair_options() {
    let mut rng = Rng::new(4242);
    for level in 1..=MAX_LEVEL {
        for current in [AttackKind::Basic, AttackKind::Hammer, AttackKind::Bullet] {
            for _ in 0..200 {
                let offer = Offer::roll(current, level, 500, &mut rng);
                let kinds: Vec<AttackKind> = offer.choices.iter().map(|c| c.kind).collect();
                assert_ne!(kinds[0], kinds[1]);
                assert_ne!(kinds[0], kinds[2]);
                assert_ne!(kinds[1], kinds[2]);
                for c in offer.choices.iter() {
                    assert_ne!(c.kind, AttackKind::Basic, "the plain attack is never an upgrade");
                    if c.is_upgrade(current) {
                        assert!(level < MAX_LEVEL, "a maxed-out weapon was offered again");
                        assert_eq!(c.level, level + 1, "another level of what is held");
                    } else {
                        assert_eq!(c.level, 1, "a new weapon starts at the first level");
                    }
                }
                assert_eq!(offer.live_from, 500 + OFFER_ARM_TICKS);
            }
        }
    }
}

#[test]
fn an_offer_is_inert_until_it_arms() {
    let mut rng = Rng::new(1);
    let offer = Offer::roll(AttackKind::Basic, 1, 100, &mut rng);
    assert!(!offer.armed(100));
    assert!(!offer.armed(100 + OFFER_ARM_TICKS - 1));
    assert!(offer.armed(100 + OFFER_ARM_TICKS));
}

#[test]
fn every_weapon_can_come_up() {
    let mut rng = Rng::new(777);
    let mut seen = Vec::new();
    for _ in 0..400 {
        for c in Offer::roll(AttackKind::Basic, 1, 0, &mut rng).choices.iter() {
            if !seen.contains(&c.kind) {
                seen.push(c.kind);
            }
        }
    }
    assert_eq!(seen.len(), ROSTER_LEN, "some weapon is never offered: {seen:?}");
}

#[test]
fn the_attack_kinds_describe_themselves() {
    assert_eq!(AttackKind::Hammer.swing_ticks(6), 12, "the hammer is out twice as long");
    assert_eq!(AttackKind::Frozen.swing_ticks(6), 0, "a trap has no swing to wait out");
    assert_eq!(AttackKind::Basic.swing_ticks(6), 6);
    assert_eq!(AttackKind::Bullet.max_instances(2), 2);
    assert_eq!(AttackKind::Frozen.max_instances(9), MAX_LEVEL as usize, "the level is capped");
    assert_eq!(AttackKind::Basic.max_instances(3), 0, "a swing is not a thing in the world");
    assert!(AttackKind::Thin.two_sided());
    assert!(!AttackKind::Basic.two_sided());
    assert!(AttackKind::Hammer.once_per_enemy());
    assert!(AttackKind::Bullet.detached() && AttackKind::Frozen.detached());
    assert_eq!(AttackKind::Basic.label(), "BASIC");
    assert_eq!(AttackKind::Frozen.label(), "TRAP");
    let anchors: Vec<HeightAnchor> = AttackKind::ALL.iter().map(|k| k.height_anchor()).collect();
    assert_eq!(anchors.len(), ROSTER_LEN);
}

use erect::attack::{AttackKind, MAX_LEVEL};
use erect::boon::{Boons, WallMod};
use erect::dev::{DevSetup, DEV_MAX_SCORE, DEV_MAX_WAVE, DEV_SCORE_STEP};
use erect::waves::{WaveKind, WaveRule};

#[test]
fn the_score_row_steps_by_five_hundred_and_stops_at_both_ends() {
    let mut dev = DevSetup::default();
    dev.adjust_score(1);
    assert_eq!(dev.score, DEV_SCORE_STEP);
    dev.adjust_score(1);
    assert_eq!(dev.score, DEV_SCORE_STEP * 2);
    dev.adjust_score(-1);
    assert_eq!(dev.score, DEV_SCORE_STEP);

    for _ in 0..5 {
        dev.adjust_score(-1);
    }
    assert_eq!(dev.score, 0, "score should not go negative");

    for _ in 0..5000 {
        dev.adjust_score(1);
    }
    assert_eq!(dev.score, DEV_MAX_SCORE, "score should stop at its ceiling");
}

#[test]
fn the_wave_row_stops_at_one() {
    let mut dev = DevSetup::default();
    for _ in 0..5 {
        dev.adjust_wave(-1);
    }
    assert_eq!(dev.wave, 1);
    for _ in 0..500 {
        dev.adjust_wave(1);
    }
    assert_eq!(dev.wave, DEV_MAX_WAVE);
}

#[test]
fn the_modifier_rows_cycle_back_through_any() {
    let mut dev = DevSetup::default();
    assert_eq!(dev.kind, None, "they start unpinned");
    assert_eq!(dev.kind_label(), "ANY");

    let mut seen_pinned = false;
    for _ in 0..6 {
        dev.cycle_kind(1);
        seen_pinned |= dev.kind.is_some();
    }
    assert!(seen_pinned, "cycling never pinned anything");
    assert_eq!(dev.kind, None, "a full cycle should come back to ANY");

    dev.cycle_rule(-1);
    assert!(dev.rule.is_some());
    assert!(!dev.rule_label().is_empty());
}

#[test]
fn the_dev_menu_can_hand_out_every_upgrade_at_once() {
    let mut dev = DevSetup::default();
    assert!(!dev.all_boons());

    dev.toggle_all_boons();
    assert!(dev.all_boons(), "one press should turn the lot on");
    assert!(dev.boons.double_jump && dev.boons.dash_free && dev.boons.shield);
    assert_ne!(dev.boons.wall, WallMod::Plain, "the wall should go to a modified one - plain is what off looks like");

    dev.toggle_all_boons();
    assert_eq!(dev.boons, Boons::default(), "and the next press should clear it");
}

#[test]
fn each_upgrade_can_also_be_set_on_its_own() {
    let mut dev = DevSetup::default();
    dev.toggle_double_jump();
    assert!(dev.boons.double_jump);
    assert!(!dev.boons.dash_free && !dev.boons.shield, "only the one asked for");
    assert!(!dev.all_boons(), "one of four is not all of them");

    dev.toggle_dash_free();
    dev.toggle_shield();
    assert!(!dev.all_boons(), "the wall is one of them too");
    dev.cycle_wall(1);
    assert!(dev.all_boons());

    dev.toggle_double_jump();
    assert!(!dev.boons.double_jump, "a switch goes both ways");
}

#[test]
fn the_wall_cycles_through_all_three_and_comes_back() {
    let mut dev = DevSetup::default();
    let mut seen = Vec::new();
    for _ in 0..3 {
        dev.cycle_wall(1);
        seen.push(dev.boons.wall);
    }
    assert!(seen.contains(&WallMod::Pull) && seen.contains(&WallMod::Push));
    assert_eq!(dev.boons.wall, WallMod::Plain, "three steps should be a full turn");
    dev.cycle_wall(-1);
    assert_eq!(dev.boons.wall, WallMod::Push, "and it should turn the other way too");
}

#[test]
fn the_attack_row_cycles_through_every_kind_and_back() {
    let mut dev = DevSetup::default();
    assert_eq!(dev.attack, AttackKind::Basic, "it starts where the game does");

    let mut seen = Vec::new();
    for _ in 0..=AttackKind::ALL.len() {
        seen.push(dev.attack);
        dev.cycle_attack(1);
    }
    for kind in AttackKind::ALL {
        assert!(seen.contains(&kind), "{kind:?} is never offered");
    }
    assert!(seen.contains(&AttackKind::Basic), "nor is the plain one");
    assert_eq!(dev.attack, AttackKind::Basic, "a full cycle comes home");

    dev.adjust_attack_level(-5);
    assert_eq!(dev.attack_level, 1, "level should not go below one");
    dev.adjust_attack_level(99);
    assert_eq!(dev.attack_level, MAX_LEVEL);
}

/* ---------------- further cases ---------------- */

#[test]
fn the_players_row_stays_within_what_the_platform_seats() {
    let mut dev = DevSetup::default();
    dev.adjust_players(1, 2);
    assert_eq!(dev.players, 2);
    dev.adjust_players(1, 2);
    assert_eq!(dev.players, 2, "two is the most a platform seats");
    dev.adjust_players(-5, 2);
    assert_eq!(dev.players, 1, "and one the fewest");
    dev.adjust_players(1, 1);
    assert_eq!(dev.players, 1, "a single-seat platform never goes to two");
}

#[test]
fn the_modifier_labels_name_what_is_pinned() {
    let mut dev = DevSetup::default();
    dev.kind = Some(WaveKind::Mixed);
    assert_eq!(dev.kind_label(), "MIXED");
    dev.rule = Some(WaveRule::Normal);
    assert_eq!(dev.rule_label(), "NORMAL");
    dev.boons.wall = WallMod::Pull;
    assert_eq!(dev.wall_label(), "BLACK");
    dev.boons.wall = WallMod::Push;
    assert_eq!(dev.wall_label(), "GREY");
    dev.boons.wall = WallMod::Plain;
    assert_eq!(dev.wall_label(), "PLAIN");
}

#[test]
fn a_step_back_undoes_a_step_forward_on_every_row() {
    let mut dev = DevSetup::default();
    dev.kind = Some(WaveKind::BasicOnly);
    dev.rule = Some(WaveRule::Hidden);
    dev.attack = AttackKind::Thin;
    let before = dev;
    dev.cycle_kind(1);
    dev.cycle_rule(1);
    dev.cycle_attack(1);
    dev.cycle_wall(1);
    assert_ne!(dev, before);
    dev.cycle_kind(-1);
    dev.cycle_rule(-1);
    dev.cycle_attack(-1);
    dev.cycle_wall(-1);
    assert_eq!(dev, before);
}

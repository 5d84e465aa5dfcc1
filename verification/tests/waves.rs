use erect::config::{
    elite_group_size, elites_in_wave, max_concurrent_enemies, wave_budget, CROWD_MAX_MULTIPLE,
    CROWD_RAMP_FIRST_WAVE, ELITE_ENTRY_FRACTION, ELITE_FIRST_WAVE, ELITE_RAMP_FIRST_WAVE,
    FLYING_BOSS_WAVE, MAX_CONCURRENT_ENEMIES, ROLLED_BOSS_WAVE, SHEDDER_BOSS_WAVE, SHEDDER_MIN_WAVE,
};
use erect::rng::Rng;
use erect::waves::{pick_ground, BossKind, GroundKind, WaveAction, WaveKind, WaveManager, WaveRule};

/// Runs the wave manager on a given wave and reports the boss action it picks.
fn boss_action_for(wave: i64) -> Option<WaveAction> {
    boss_action_seeded(wave, 4242)
}

fn boss_action_seeded(wave: i64, seed: u64) -> Option<WaveAction> {
    let mut waves = WaveManager::default();
    let mut rng = Rng::new(seed);
    for _ in 0..5000 {
        match waves.update(wave, 0, 0, &mut rng) {
            WaveAction::Idle
            | WaveAction::SpawnGround(_)
            | WaveAction::SpawnFlyer(_)
            | WaveAction::SpawnElite(_)
            | WaveAction::ClearWave => {}
            boss => return Some(boss),
        }
    }
    None
}

/// Runs a wave and reports every arrival of heavies: how many came at once,
/// and at what fraction of the wave's budget.
fn elite_arrivals(wave: i64) -> Vec<(usize, i64)> {
    let mut manager = WaveManager::default();
    let mut rng = Rng::new(wave as u64 * 31 + 7);
    manager.begin_wave(wave, &mut rng);
    manager.skip_countdown();
    let budget = wave_budget(wave).max(1);
    let mut out = Vec::new();
    let mut spawned = 0i64;
    for _ in 0..200_000 {
        match manager.update(wave, spawned, 0, &mut rng) {
            WaveAction::Idle => {}
            WaveAction::ClearWave => break,
            WaveAction::SpawnElite(n) => {
                out.push((n, spawned * 100 / budget));
                spawned += n as i64;
            }
            _ => spawned += 1,
        }
    }
    out
}

/// Runs a boss wave and reports what it put out.
fn boss_wave(wave: i64, seed: u64) -> (Vec<BossKind>, usize, bool) {
    let mut manager = WaveManager::default();
    let mut rng = Rng::new(seed);
    manager.begin_wave(wave, &mut rng);
    manager.skip_countdown();
    let (mut spawned, mut plain, mut cleared) = (0i64, 0usize, false);
    let mut kinds = Vec::new();
    for _ in 0..500_000 {
        match manager.update(wave, spawned, 0, &mut rng) {
            WaveAction::Idle => {}
            WaveAction::ClearWave => {
                cleared = true;
                break;
            }
            WaveAction::SpawnBosses(n) => {
                for _ in 0..n {
                    kinds.push(BossKind::Ground);
                }
                spawned += n;
            }
            WaveAction::SpawnFlyingBoss => {
                kinds.push(BossKind::Flying);
                spawned += 1;
            }
            WaveAction::SpawnShedderBoss => {
                kinds.push(BossKind::Shedder);
                spawned += 1;
            }
            WaveAction::SpawnRolledBoss => {
                kinds.push(BossKind::Rolled);
                spawned += 1;
            }
            WaveAction::SpawnBossGroup(k) => {
                spawned += k.len() as i64;
                kinds.extend(k);
            }
            WaveAction::SpawnElite(n) => spawned += n as i64,
            _ => {
                plain += 1;
                spawned += 1;
            }
        }
    }
    (kinds, plain, cleared)
}

#[test]
fn special_waves_are_roughly_one_in_four_and_never_on_wave_one_or_a_boss() {
    let mut rng = Rng::new(0xA11CE);
    let mut special = 0;
    let mut rolls = 0;
    for wave in 2..2000i64 {
        if wave % 5 == 0 {
            assert_eq!(
                WaveKind::roll(wave, &mut rng),
                WaveKind::Mixed,
                "boss wave {wave} must stay mixed"
            );
            continue;
        }
        rolls += 1;
        if WaveKind::roll(wave, &mut rng) != WaveKind::Mixed {
            special += 1;
        }
    }
    let share = special as f32 / rolls as f32;
    assert!(
        (0.20..0.30).contains(&share),
        "special waves should land near 25%, got {:.1}%",
        share * 100.0
    );

    for _ in 0..100 {
        assert_eq!(WaveKind::roll(1, &mut rng), WaveKind::Mixed, "wave 1 is the introduction");
    }
}

#[test]
fn each_early_boss_wave_keeps_its_own_set_piece() {
    assert_eq!(boss_action_for(5), Some(WaveAction::SpawnBosses(1)));
    assert_eq!(
        boss_action_for(FLYING_BOSS_WAVE),
        Some(WaveAction::SpawnFlyingBoss),
        "wave 10 should be the flying boss, not ground bosses"
    );
    assert!(matches!(
        boss_action_for(SHEDDER_BOSS_WAVE),
        Some(WaveAction::SpawnBosses(3)) | Some(WaveAction::SpawnShedderBoss)
    ));
    assert_eq!(boss_action_for(ROLLED_BOSS_WAVE), Some(WaveAction::SpawnRolledBoss));
    assert_eq!(boss_action_for(7), None);
}

#[test]
fn the_jumpers_wave_fields_both_kinds_of_jumper() {
    let mut waves = WaveManager::default();
    let mut rng = Rng::new(31337);
    let (mut jumpers, mut leapers, mut others) = (0, 0, 0);
    for _ in 0..4000 {
        // Force the restricted wave rather than waiting for the 25% roll.
        waves.kind = WaveKind::JumpersOnly;
        match waves.update(6, 0, 0, &mut rng) {
            WaveAction::SpawnGround(GroundKind::Jumper) => jumpers += 1,
            WaveAction::SpawnGround(GroundKind::Leaper) => leapers += 1,
            WaveAction::SpawnGround(_) | WaveAction::SpawnFlyer(_) => others += 1,
            _ => {}
        }
    }
    assert!(jumpers > 0 && leapers > 0, "both should turn up: {jumpers}/{leapers}");
    assert_eq!(others, 0, "a jumpers wave should field nothing else");
}

#[test]
fn the_two_wave_axes_are_independent() {
    let mut rng = Rng::new(9001);
    let mut seen_both = false;
    let mut rule_counts = [0usize; 5];
    for _ in 0..4000 {
        let mut waves = WaveManager::default();
        waves.begin_wave(6, &mut rng);
        if waves.kind != WaveKind::Mixed && waves.rule != WaveRule::Normal {
            seen_both = true;
        }
        rule_counts[match waves.rule {
            WaveRule::Normal => 0,
            WaveRule::StaticCamera => 1,
            WaveRule::NoJumps => 2,
            WaveRule::NoWall => 3,
            WaveRule::Hidden => 4,
        }] += 1;
    }
    assert!(seen_both, "a wave should be able to carry one of each");
    assert!(rule_counts[0] > 2400, "most waves should stay plain");
    for (i, n) in rule_counts.iter().enumerate().skip(1) {
        assert!(*n > 0, "rule {i} never came up");
    }
    let mut waves = WaveManager::default();
    waves.begin_wave(1, &mut rng);
    assert_eq!(waves.rule, WaveRule::Normal);
}

#[test]
fn every_wave_modifier_comes_up_equally_often() {
    let mut rng = Rng::new(12345);
    let mut rules = [0usize; 5];
    let mut kinds = [0usize; 5];
    let n = 60000;
    for _ in 0..n {
        let mut waves = WaveManager::default();
        waves.begin_wave(7, &mut rng);
        rules[match waves.rule {
            WaveRule::Normal => 0,
            WaveRule::StaticCamera => 1,
            WaveRule::NoJumps => 2,
            WaveRule::NoWall => 3,
            WaveRule::Hidden => 4,
        }] += 1;
        kinds[match waves.kind {
            WaveKind::Mixed => 0,
            WaveKind::GroundOnly => 1,
            WaveKind::FlyersOnly => 2,
            WaveKind::BasicOnly => 3,
            WaveKind::JumpersOnly => 4,
        }] += 1;
    }

    for (name, counts) in [("rule", rules), ("kind", kinds)] {
        let special: usize = counts[1..].iter().sum();
        let rate = special as f64 / n as f64;
        assert!(
            (rate - 0.25).abs() < 0.02,
            "{name}: {rate:.3} of waves were special, wanted a quarter"
        );
        let expected = special as f64 / 4.0;
        for (i, c) in counts[1..].iter().enumerate() {
            let off = (*c as f64 - expected).abs() / expected;
            assert!(
                off < 0.15,
                "{name} variant {i} came up {c} times against {expected:.0} expected"
            );
        }
    }
}

#[test]
fn a_twenty_wave_run_almost_always_sees_a_modifier() {
    let runs = 2000;
    let mut barren = 0;
    for seed in 1..=runs {
        let mut rng = Rng::new(seed as u64);
        let mut waves = WaveManager::default();
        let mut saw = false;
        for wave in 1..=20i64 {
            waves.begin_wave(wave, &mut rng);
            saw |= waves.rule != WaveRule::Normal;
        }
        if !saw {
            barren += 1;
        }
    }
    let rate = barren as f64 / runs as f64;
    assert!(rate < 0.02, "{rate:.3} of runs saw no modifier at all in 20 waves");
}

#[test]
fn the_crowd_is_flat_while_the_roster_is_still_unlocking() {
    for wave in 1..CROWD_RAMP_FIRST_WAVE {
        assert_eq!(
            max_concurrent_enemies(wave),
            MAX_CONCURRENT_ENEMIES,
            "wave {wave} should still be at the opening figure"
        );
    }
}

#[test]
fn the_crowd_grows_by_one_every_two_waves() {
    assert_eq!(max_concurrent_enemies(CROWD_RAMP_FIRST_WAVE), MAX_CONCURRENT_ENEMIES + 1);
    assert_eq!(max_concurrent_enemies(CROWD_RAMP_FIRST_WAVE + 1), MAX_CONCURRENT_ENEMIES + 1);
    assert_eq!(max_concurrent_enemies(CROWD_RAMP_FIRST_WAVE + 2), MAX_CONCURRENT_ENEMIES + 2);
    assert_eq!(max_concurrent_enemies(CROWD_RAMP_FIRST_WAVE + 3), MAX_CONCURRENT_ENEMIES + 2);

    let mut previous = max_concurrent_enemies(1);
    for wave in 2..80 {
        let now = max_concurrent_enemies(wave);
        assert!(now >= previous, "the crowd shrank at wave {wave}");
        assert!(now - previous <= 1, "the crowd jumped by more than one at wave {wave}");
        previous = now;
    }
}

#[test]
fn the_crowd_stops_at_twice_the_opening_figure() {
    let ceiling = MAX_CONCURRENT_ENEMIES * CROWD_MAX_MULTIPLE;
    for wave in [29, 30, 60, 500] {
        assert_eq!(max_concurrent_enemies(wave), ceiling, "wave {wave} went past the ceiling");
    }
}

#[test]
fn rolled_heavies_start_at_the_sixth_wave() {
    for wave in 1..ELITE_FIRST_WAVE {
        assert_eq!(elites_in_wave(wave), 0, "wave {wave} should be off the list");
    }
    assert_eq!(elites_in_wave(ELITE_FIRST_WAVE), 1);
}

#[test]
fn one_rolled_heavy_a_wave_until_the_ramp_and_never_on_a_boss_wave() {
    for wave in ELITE_FIRST_WAVE..ELITE_RAMP_FIRST_WAVE {
        let want = if wave % 5 == 0 { 0 } else { 1 };
        assert_eq!(
            elites_in_wave(wave),
            want,
            "wave {wave} produced the wrong number of heavies"
        );
    }
}

#[test]
fn the_ramp_climbs_by_two_then_by_one_and_then_stops() {
    let counts: Vec<usize> = (15..=27).map(elites_in_wave).collect();
    assert_eq!(
        counts,
        vec![1, 3, 5, 7, 9, 11, 12, 13, 14, 15, 16, 16, 16],
        "the ramp does not match the one that was asked for"
    );
}

#[test]
fn a_wave_stops_getting_bigger_where_it_starts_getting_heavier() {
    for wave in 1..ELITE_RAMP_FIRST_WAVE {
        assert_eq!(wave_budget(wave), wave * 10);
    }
    let frozen = wave_budget(ELITE_RAMP_FIRST_WAVE);
    for wave in ELITE_RAMP_FIRST_WAVE..40 {
        assert_eq!(wave_budget(wave), frozen, "wave {wave} grew");
    }
}

#[test]
fn heavies_replace_ordinary_enemies_rather_than_joining_them() {
    let wave = 22;
    let mut manager = WaveManager::default();
    let mut rng = Rng::new(4242);
    manager.begin_wave(wave, &mut rng);
    manager.skip_countdown();
    let (mut spawned, mut heavies, mut plain) = (0i64, 0usize, 0usize);
    for _ in 0..200_000 {
        match manager.update(wave, spawned, 0, &mut rng) {
            WaveAction::Idle => {}
            WaveAction::ClearWave => break,
            WaveAction::SpawnElite(n) => {
                heavies += n;
                spawned += n as i64;
            }
            _ => {
                plain += 1;
                spawned += 1;
            }
        }
    }
    assert_eq!(heavies, elites_in_wave(wave));
    assert_eq!(
        (heavies + plain) as i64,
        wave_budget(wave),
        "the wave should still be exactly its budget"
    );
}

#[test]
fn a_heavy_waits_until_the_wave_is_under_way() {
    let wave = 7;
    let mut manager = WaveManager::default();
    let mut rng = Rng::new(4242);
    manager.begin_wave(wave, &mut rng);
    manager.skip_countdown();
    let mut spawned = 0i64;
    for _ in 0..40_000 {
        match manager.update(wave, spawned, 0, &mut rng) {
            WaveAction::Idle => {}
            WaveAction::ClearWave => break,
            WaveAction::SpawnElite(_) => {
                assert!(spawned > 0, "it walked in before anything else did");
                assert!(
                    spawned >= wave * 10 / ELITE_ENTRY_FRACTION,
                    "it walked in after only {spawned} of the wave's budget"
                );
                return;
            }
            _ => spawned += 1,
        }
    }
    panic!("no heavy arrived at all");
}

#[test]
fn the_shedder_waits_for_its_wave() {
    // A fresh run's generator: the opening wave draws nothing from it.
    let mut rng = Rng::new(12345);
    for wave in 1..SHEDDER_MIN_WAVE {
        for _ in 0..500 {
            assert_ne!(
                pick_ground(wave, &mut rng),
                GroundKind::Shedder,
                "a shedder turned up on wave {wave}"
            );
        }
    }
    let mut seen = false;
    for _ in 0..2000 {
        if pick_ground(SHEDDER_MIN_WAVE, &mut rng) == GroundKind::Shedder {
            seen = true;
            break;
        }
    }
    assert!(seen, "the shedder never turned up on its own wave");
}

#[test]
fn wave_fifteen_rolls_between_two_bosses() {
    let (mut ground, mut shedder) = (false, false);
    for seed in 0..80u64 {
        match boss_action_seeded(SHEDDER_BOSS_WAVE, seed) {
            Some(WaveAction::SpawnBosses(_)) => ground = true,
            Some(WaveAction::SpawnShedderBoss) => shedder = true,
            other => panic!("wave 15 produced {other:?}"),
        }
        if ground && shedder {
            break;
        }
    }
    assert!(ground && shedder, "wave 15 only ever produced one of the two");
}

#[test]
fn the_twentieth_wave_is_one_boss_and_nothing_else() {
    let (kinds, plain, cleared) = boss_wave(ROLLED_BOSS_WAVE, 4242);
    assert_eq!(kinds, vec![BossKind::Rolled]);
    assert_eq!(plain, 0, "the wave should spawn nothing but the boss");
    assert!(cleared, "and it still has to be able to end");
}

#[test]
fn the_eighteenth_wave_is_seven_heavies_evenly_spread() {
    let arrivals = elite_arrivals(18);
    assert_eq!(arrivals.len(), 7, "seven separate arrivals");
    assert_eq!(arrivals.iter().map(|(n, _)| n).sum::<usize>(), 7);
    assert!(arrivals.iter().all(|(n, _)| *n == 1), "one at a time this early");

    let at: Vec<i64> = arrivals.iter().map(|(_, p)| *p).collect();
    assert!(at[0] > 5, "the wave should open as an ordinary one, not at {}%", at[0]);
    assert!(*at.last().unwrap() < 95, "and not finish on one either");
    let gaps: Vec<i64> = at.windows(2).map(|w| w[1] - w[0]).collect();
    let (lo, hi) = (*gaps.iter().min().unwrap(), *gaps.iter().max().unwrap());
    assert!(hi - lo <= 2, "the gaps are uneven: {gaps:?}");
}

#[test]
fn the_twenty_second_wave_is_thirteen_in_pairs_and_one_alone() {
    let arrivals = elite_arrivals(22);
    assert_eq!(arrivals.iter().map(|(n, _)| n).sum::<usize>(), 13);
    assert_eq!(arrivals.len(), 7, "seven arrivals");
    assert_eq!(arrivals.iter().filter(|(n, _)| *n == 2).count(), 6, "six pairs");
    assert_eq!(arrivals.iter().filter(|(n, _)| *n == 1).count(), 1, "and one alone");
}

#[test]
fn past_the_last_ramping_wave_the_groups_grow_instead() {
    let sizes: Vec<usize> = (25..=32).map(elite_group_size).collect();
    assert_eq!(sizes, vec![2, 3, 4, 5, 6, 7, 8, 9]);

    let mut previous = usize::MAX;
    for wave in 26..40i64 {
        if wave % 5 == 0 {
            continue;
        }
        let arrivals = elite_arrivals(wave);
        assert_eq!(
            arrivals.iter().map(|(n, _)| n).sum::<usize>(),
            elites_in_wave(wave),
            "wave {wave} owes the wrong number"
        );
        assert!(
            arrivals.len() <= previous,
            "wave {wave} came in more pieces than the wave before it"
        );
        previous = arrivals.len();
    }
    assert_eq!(elite_group_size(60), elites_in_wave(60));
}

#[test]
fn a_wave_that_spawns_nothing_can_still_finish() {
    let (_, _, cleared) = boss_wave(ROLLED_BOSS_WAVE, 7);
    assert!(cleared);
}

#[test]
fn late_boss_waves_grow_and_mix() {
    for (wave, want) in [(25i64, 2usize), (30, 3), (35, 4), (40, 5)] {
        let (kinds, _, _) = boss_wave(wave, wave as u64 * 13 + 1);
        assert_eq!(kinds.len(), want, "wave {wave} carried the wrong number");
    }
    let mut seen = vec![false; BossKind::ALL.len()];
    for seed in 0..200u64 {
        for kind in boss_wave(40, seed).0 {
            seen[BossKind::ALL.iter().position(|k| *k == kind).unwrap()] = true;
        }
    }
    assert!(seen.iter().all(|s| *s), "some boss kind is never drawn: {seen:?}");
}

#[test]
fn the_early_boss_waves_are_left_as_they_were() {
    assert_eq!(boss_wave(5, 1).0, vec![BossKind::Ground]);
    assert_eq!(boss_wave(FLYING_BOSS_WAVE, 1).0, vec![BossKind::Flying]);
    let mut saw_both = (false, false);
    for seed in 0..40u64 {
        match boss_wave(SHEDDER_BOSS_WAVE, seed).0.len() {
            1 => saw_both.0 = true,
            3 => saw_both.1 = true,
            n => panic!("wave 15 produced {n} bosses"),
        }
    }
    assert!(saw_both.0 && saw_both.1, "the coin flip stopped being a coin flip");
}

#[test]
fn the_wave_manager_honours_the_growing_crowd() {
    let mut rng = Rng::new(12345);
    let held = MAX_CONCURRENT_ENEMIES;

    let spawned_at = |wave: i64, live: usize, rng: &mut Rng| {
        let mut manager = WaveManager::default();
        manager.skip_countdown();
        manager.kind = WaveKind::GroundOnly;
        let mut seen = 0;
        for _ in 0..4000 {
            manager.kind = WaveKind::GroundOnly;
            if let WaveAction::SpawnGround(_) = manager.update(wave, 0, live, rng) {
                seen += 1;
            }
        }
        seen
    };

    assert_eq!(spawned_at(1, held, &mut rng), 0, "wave 1 should be full at the opening figure");
    assert!(
        spawned_at(CROWD_RAMP_FIRST_WAVE, held, &mut rng) > 0,
        "wave {CROWD_RAMP_FIRST_WAVE} should have room for one more"
    );
    assert_eq!(spawned_at(CROWD_RAMP_FIRST_WAVE, held + 1, &mut rng), 0, "and no room beyond that");
}

#[test]
fn spawn_table_gates_variants_by_wave() {
    let mut rng = Rng::new(99);
    let sample = |wave: i64, rng: &mut Rng| {
        let mut seen = Vec::new();
        for _ in 0..600 {
            let kind = pick_ground(wave, rng);
            if !seen.contains(&kind) {
                seen.push(kind);
            }
        }
        seen
    };

    assert_eq!(sample(1, &mut rng), vec![GroundKind::Base], "wave 1 is base only");
    assert!(sample(2, &mut rng).contains(&GroundKind::Runt));
    assert!(!sample(2, &mut rng).contains(&GroundKind::Jumper));
    assert!(sample(9, &mut rng).contains(&GroundKind::Shooter));
    assert_eq!(sample(9, &mut rng).len(), 9, "whole roster unlocked by wave 9");
}

#[test]
fn a_restricted_wave_spawns_only_its_own_kind() {
    for (kind, expect_flyer) in [(WaveKind::FlyersOnly, true), (WaveKind::GroundOnly, false)] {
        let mut rng = Rng::new(12345);
        let mut waves = WaveManager::default();
        waves.begin_wave(1, &mut rng);
        waves.reset();
        waves.kind = kind;
        waves.begin_countdown(0);

        let mut ground = 0;
        let mut flyers = 0;
        for _ in 0..4000 {
            match waves.update(3, 0, 0, &mut rng) {
                WaveAction::SpawnGround(_) => ground += 1,
                WaveAction::SpawnFlyer(_) => flyers += 1,
                _ => {}
            }
        }
        if expect_flyer {
            assert!(flyers > 0, "{kind:?} should have spawned something");
            assert_eq!(ground, 0, "{kind:?} let a ground enemy through");
        } else {
            assert!(ground > 0, "{kind:?} should have spawned something");
            assert_eq!(flyers, 0, "{kind:?} let a flyer through");
        }
    }
}

#[test]
fn a_jumpers_wave_ignores_the_usual_unlock_wave() {
    let mut rng = Rng::new(12345);
    let mut waves = WaveManager::default();
    waves.begin_wave(1, &mut rng);
    waves.reset();
    waves.kind = WaveKind::JumpersOnly;
    waves.begin_countdown(0);

    let mut seen = 0;
    for _ in 0..4000 {
        if let WaveAction::SpawnGround(kind) = waves.update(1, 0, 0, &mut rng) {
            assert!(
                matches!(kind, GroundKind::Jumper | GroundKind::Leaper),
                "a jumpers wave spawned {kind:?}"
            );
            seen += 1;
        }
    }
    assert!(seen > 0, "jumpers wave never spawned at wave 1");
}

/* ---------------- further checks on the pacing ---------------- */

#[test]
fn a_countdown_holds_the_wave_back_and_then_lets_it_run() {
    let mut rng = Rng::new(5);
    let mut waves = WaveManager::default();
    waves.begin_wave(3, &mut rng);
    waves.begin_countdown(2);
    assert!(waves.between_waves());
    let mut ticks = 0;
    while waves.between_waves() {
        assert_eq!(waves.update(3, 0, 0, &mut rng), WaveAction::Idle);
        ticks += 1;
        assert!(ticks < 1000, "the countdown never ran out");
    }
    // Two seconds, a tick at a time.
    assert!(ticks >= 2 * 60 && ticks <= 3 * 60, "the countdown took {ticks} ticks");
}

#[test]
fn a_skipped_countdown_ends_the_lull_at_once() {
    let mut waves = WaveManager::default();
    waves.begin_countdown(10);
    assert!(waves.between_waves());
    waves.skip_countdown();
    assert!(!waves.between_waves());
}

#[test]
fn a_spent_budget_with_an_empty_field_clears_the_wave() {
    let mut rng = Rng::new(77);
    let mut waves = WaveManager::default();
    waves.begin_wave(2, &mut rng);
    waves.skip_countdown();
    let mut cleared = false;
    for _ in 0..100 {
        if waves.update(2, wave_budget(2), 0, &mut rng) == WaveAction::ClearWave {
            cleared = true;
            break;
        }
    }
    assert!(cleared, "a wave with nothing left to spawn and nothing alive should end");
}

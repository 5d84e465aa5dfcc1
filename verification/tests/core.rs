use erect::audio::{
    count_of, highest_step, sfx_index, situation_listed, AudioEvent, AudioQueue, CountOf, MusicState, Situation,
    MAX_QUEUED_EVENTS,
};
use erect::charge::{dash_cost, energy_needed, hit_reward, kill_reward, Charges, BOSS_REWARD_PER_WAVE, KILL_REWARD};
use erect::config::{player_color_name, TELEPORTER_TELEPORT_EVERY};
use erect::entities::{Behaviors, FlyerBehavior, Movement};
use erect::game::{music_state, next_combo, situation_for, RunResult, State};
use erect::input::{InputFrame, PlayerIntent};
use erect::menu::{wrap, Menu, MenuAction, MenuRow, MENU_ROW_H_PCT};
use erect::mixer::{Samples, SfxSlot, Voice, VoiceBank};
use erect::packs::{choose_index, mix, PACK_COUNT};
use erect::rng::Rng;
use erect::settings::{restored, PlayerConfig, Settings, VolumeChannel};
use erect::text::{decimal, signed_decimal};

/* ---------------- the bar and the charges ---------------- */

#[test]
fn energy_threshold_is_never_zero() {
    assert_eq!(energy_needed(1, 0, 0), 1, "an empty count still needs something");
    assert_eq!(energy_needed(1, 1, 0), 17, "half of thirty-five, rounded down");
    assert_eq!(energy_needed(3, 2, 1), 82);
    assert_eq!(energy_needed(-40, 3, 0), 1, "nothing negative comes out");
    assert_eq!(energy_needed(i64::MAX, i64::MAX, i64::MAX), i64::MAX, "and nothing wraps");
}

#[test]
fn a_dash_costs_a_third_of_a_bar() {
    assert_eq!(dash_cost(30), 10);
    assert_eq!(dash_cost(31), 11, "a third is rounded up, never down to free");
    assert_eq!(dash_cost(1), 1);
    let mut c = Charges { energy: 20, super_charges: 1, attacks_since_power_up: 1 };
    // The bar is 35 at wave one with two counted; a dash is 12.
    assert!(c.pay_for_dash(1));
    assert_eq!(c, Charges { energy: 8, super_charges: 1, attacks_since_power_up: 1 });
}

#[test]
fn an_empty_bar_breaks_a_charge_without_discounting_the_next_one() {
    let mut c = Charges { energy: 0, super_charges: 2, attacks_since_power_up: 0 };
    let before = energy_needed(1, c.super_charges, c.attacks_since_power_up);
    assert!(c.pay_for_dash(1));
    assert_eq!(c.super_charges, 1);
    assert_eq!(c.attacks_since_power_up, 1);
    assert_eq!(energy_needed(1, c.super_charges, c.attacks_since_power_up), before, "the next charge is as dear as before");
    // The charge was a full bar; the dash came out of the change.
    assert_eq!(c.energy, before - dash_cost(before));
}

#[test]
fn a_dash_with_nothing_to_pay_with_does_nothing() {
    let mut c = Charges { energy: 0, super_charges: 0, attacks_since_power_up: 3 };
    let before = c;
    assert!(!c.pay_for_dash(5));
    assert_eq!(c, before);
}

#[test]
fn a_full_bar_becomes_a_charge() {
    let mut c = Charges { energy: 40, super_charges: 1, attacks_since_power_up: 1 };
    assert!(c.bank(1), "35 is enough at wave one with two counted");
    assert_eq!(c, Charges { energy: 5, super_charges: 2, attacks_since_power_up: 0 });
    assert!(!c.bank(1), "and five is not");
    assert!(c.spend());
    assert_eq!(c, Charges { energy: 5, super_charges: 1, attacks_since_power_up: 1 });
    let mut empty = Charges { energy: 0, super_charges: 0, attacks_since_power_up: 0 };
    assert!(!empty.spend());
}

#[test]
fn boss_pays_boss_tier_but_runts_and_children_do_not() {
    assert_eq!(kill_reward(true, false, 7), BOSS_REWARD_PER_WAVE * 7);
    assert_eq!(kill_reward(true, true, 7), 700, "the flying boss pays the same as a ground one");
    assert_eq!(kill_reward(false, false, 7), KILL_REWARD);
    assert_eq!(kill_reward(false, false, 30), 6);
    assert_eq!(kill_reward(false, true, 30), 12, "a flyer pays double");
    assert_eq!(hit_reward(false), 3);
    assert_eq!(hit_reward(true), 6);
}

/* ---------------- closing a run ---------------- */

#[test]
fn a_score_above_the_record_becomes_the_record() {
    let mut settings = Settings::default();
    settings.record_solo = 500;
    let r = RunResult::close(&mut settings, 800, 6, 1);
    assert!(r.is_record);
    assert_eq!((r.score, r.wave, r.players), (800, 6, 1));
    assert_eq!(settings.record(1), 800);
    assert!(settings.dirty);

    let r = RunResult::close(&mut settings, 800, 9, 1);
    assert!(!r.is_record, "equalling the record does not beat it");
    let r = RunResult::close(&mut settings, 300, 2, 2);
    assert!(r.is_record, "a duo record is its own");
    assert_eq!(settings.record(1), 800);
    assert_eq!(settings.record(2), 300);
}

#[test]
fn the_combo_runs_to_three_inside_the_window() {
    assert_eq!(next_combo(0, 0, 100), (1, 100), "a first swing opens a combo");
    assert_eq!(next_combo(1, 100, 130), (2, 100));
    assert_eq!(next_combo(2, 100, 150), (0, 100), "the third closes it");
    assert_eq!(next_combo(1, 100, 161), (1, 161), "too late starts again");
}

#[test]
fn the_music_follows_the_screen() {
    assert_eq!(situation_for(State::Paused, -1), Situation::Paused);
    assert_eq!(situation_for(State::Playing, -1), Situation::Combat);
    assert_eq!(situation_for(State::Playing, 3), Situation::Calm, "a wave not yet started is a lull");
    assert_eq!(situation_for(State::Title, -1), Situation::Calm);
    let m = music_state(State::GameOver, -1, 4, 2, true);
    assert_eq!(m, MusicState { situation: Situation::Calm, zombies: 0, flyers: 0, boss: false });
    let m = music_state(State::Playing, -1, 4, 2, true);
    assert_eq!(m, MusicState { situation: Situation::Combat, zombies: 4, flyers: 2, boss: true });
}

/* ---------------- sound ---------------- */

#[test]
fn the_queue_keeps_order_and_drops_past_its_limit() {
    let mut q = AudioQueue::new();
    q.push(AudioEvent::Jump);
    q.push(AudioEvent::Hit);
    assert_eq!(q.len(), 2);
    let copy = q.clone();
    assert_eq!(q.drain(), vec![AudioEvent::Jump, AudioEvent::Hit]);
    assert_eq!(q.len(), 0);
    assert_eq!(copy.len(), 2, "a copy keeps its own cues");
    for _ in 0..40 {
        q.push(AudioEvent::Slam);
    }
    assert_eq!(q.len(), MAX_QUEUED_EVENTS);
    q.clear();
    assert_eq!(q.len(), 0);
    assert_eq!(sfx_index(AudioEvent::Hit), 0);
    assert_eq!(sfx_index(AudioEvent::Jump), 1);
    assert_eq!(sfx_index(AudioEvent::Slam), 2);
}

#[test]
fn count_steps_pick_the_highest_reached() {
    let state = MusicState { situation: Situation::Combat, zombies: 5, flyers: 1, boss: false };
    assert_eq!(count_of(CountOf::Zombie, &state), 5);
    assert_eq!(count_of(CountOf::Flyer, &state), 1);
    let steps = [1usize, 4, 8];
    assert_eq!(highest_step(0, &steps), None);
    assert_eq!(highest_step(1, &steps), Some(0));
    assert_eq!(highest_step(5, &steps), Some(1));
    assert_eq!(highest_step(80, &steps), Some(2));
    assert_eq!(highest_step(3, &[]), None);
    assert!(situation_listed(Situation::Paused, &[Situation::Calm, Situation::Paused]));
    assert!(!situation_listed(Situation::Combat, &[Situation::Calm, Situation::Paused]));
}

#[test]
fn a_pack_is_picked_from_every_bit_of_the_seed() {
    assert!(choose_index(0) < PACK_COUNT);
    let mut seen = [false; PACK_COUNT];
    for seed in 0..64u64 {
        seen[choose_index(seed << 40)] = true;
    }
    assert!(seen.iter().all(|s| *s), "a clock that only moves its high bits should still spread");
    assert_eq!(mix(0), 0xE220_A839_7B1D_CDAF, "splitmix64 of zero");
}

#[test]
fn samples_read_the_same_whatever_the_encoding() {
    let bytes = [128u8, 255, 0];
    let mono = Samples::U8Mono(&bytes);
    assert_eq!(mono.frames(), 3);
    assert_eq!(mono.at(0, 0), 0, "128 is silence");
    assert_eq!(mono.at(1, 1), 127 * 256);
    assert_eq!(mono.at(2, 0), -128 * 256);
    let stereo_data = [1i16, -1, 2, -2, 7];
    let stereo = Samples::I16Stereo(&stereo_data);
    assert_eq!(stereo.frames(), 2, "a stray half frame is not a frame");
    assert_eq!(stereo.at(1, 0), 2);
    assert_eq!(stereo.at(1, 1), -2);
    let empty: [i16; 0] = [];
    assert!(Samples::I16Mono(&empty).is_empty());
}

fn bank() -> VoiceBank {
    VoiceBank::new(vec![
        SfxSlot { event: AudioEvent::Hit, frames: 100, max_voices: 2, min_interval_frames: 0 },
        SfxSlot { event: AudioEvent::Jump, frames: 50, max_voices: 1, min_interval_frames: 10 },
    ])
}

#[test]
fn a_capped_effect_steals_its_oldest_voice() {
    let mut b = bank();
    b.fire(AudioEvent::Hit);
    b.advance(10);
    b.fire(AudioEvent::Hit);
    assert_eq!(b.voice_count(), 2);
    b.fire(AudioEvent::Hit);
    assert_eq!(b.voice_count(), 2, "the cap holds");
    assert_eq!(b.voice(0), Voice { sfx: 0, pos: 0 }, "the oldest went");
    assert_eq!(b.voice(1), Voice { sfx: 0, pos: 0 });
    b.fire(AudioEvent::Slam);
    assert_eq!(b.voice_count(), 2, "an effect the pack lacks is ignored");
}

#[test]
fn a_voice_ends_with_its_sample_and_retriggers_wait() {
    let mut b = bank();
    b.fire(AudioEvent::Jump);
    assert_eq!(b.voice_count(), 1);
    b.tick(5);
    b.fire(AudioEvent::Jump);
    assert_eq!(b.voice_count(), 1, "too soon after the last start");
    b.advance(49);
    assert_eq!(b.voice(0), Voice { sfx: 1, pos: 49 });
    b.advance(1);
    assert_eq!(b.voice_count(), 0, "a finished voice is dropped");
    b.fire(AudioEvent::Hit);
    b.silence();
    assert_eq!(b.voice_count(), 0);
    assert_eq!(b.slot(1).max_voices, 1);
}

/* ---------------- small pieces ---------------- */

#[test]
fn a_teleporter_counts_down_and_blinks_at_zero() {
    let b = FlyerBehavior::Teleporter { cooldown: 1 };
    let (b, blink) = b.tick();
    assert_eq!((b, blink), (FlyerBehavior::Teleporter { cooldown: 0 }, false));
    let (b, blink) = b.tick();
    assert_eq!((b, blink), (FlyerBehavior::Teleporter { cooldown: TELEPORTER_TELEPORT_EVERY }, true));
    assert_eq!(FlyerBehavior::Drift.tick(), (FlyerBehavior::Drift, false));
    assert_eq!(FlyerBehavior::Teleporter { cooldown: 5 }.after_blink(), FlyerBehavior::Teleporter { cooldown: TELEPORTER_TELEPORT_EVERY });
    assert_eq!(FlyerBehavior::Drift.after_blink(), FlyerBehavior::Drift);
    let mut rng = Rng::new(8);
    for _ in 0..200 {
        match FlyerBehavior::teleporter(&mut rng) {
            FlyerBehavior::Teleporter { cooldown } => assert!((0..=TELEPORTER_TELEPORT_EVERY).contains(&cooldown)),
            FlyerBehavior::Drift => panic!("not a teleporter"),
        }
    }
    assert!(FlyerBehavior::Teleporter { cooldown: 3 }.is_teleporter());
    assert_eq!(Movement::default(), Movement::Run);
    assert_eq!(Behaviors::plain(), Behaviors::default());
}

#[test]
fn clearing_the_edges_keeps_what_is_held() {
    let mut frame = InputFrame::default();
    frame.players[0] = PlayerIntent { left: true, jump: true, attack: true, attack_held: true, ..Default::default() };
    frame.menu.confirm = true;
    frame.pause = true;
    frame.pads_connected = [true, false];
    frame.clear_edges();
    assert!(frame.players[0].left && frame.players[0].attack_held);
    assert!(!frame.players[0].jump && !frame.players[0].attack);
    assert!(!frame.menu.confirm && !frame.pause);
    assert_eq!(frame.pads_connected, [true, false]);
}

#[test]
fn menus_wrap_and_stack_their_rows() {
    assert_eq!(wrap(0, -1, 4), 3);
    assert_eq!(wrap(3, 1, 4), 0);
    assert_eq!(wrap(1, -9, 4), 0);
    let mut m = Menu::new(26);
    assert_eq!(m.row_y_pct(2), 26 + 2 * MENU_ROW_H_PCT as u128);
    m.move_by(-1, 5);
    assert_eq!(m.index, 4);
    m.move_by(3, 0);
    assert_eq!(m.index, 4, "a menu with no rows keeps its cursor");
    let row = MenuRow { label: "MUSIC: 10".to_string(), action: MenuAction::AdjustVolume(VolumeChannel::Music), swatch: None };
    assert!(row.is_adjustable());
    let row = MenuRow { label: "BACK".to_string(), action: MenuAction::Back, swatch: None };
    assert!(!row.is_adjustable());
}

#[test]
fn numbers_are_written_out_in_decimal() {
    assert_eq!(decimal(0), "0");
    assert_eq!(decimal(1500), "1500");
    assert_eq!(signed_decimal(-42), "-42");
    assert_eq!(signed_decimal(i64::MIN), i64::MIN.to_string());
    assert_eq!(player_color_name(0), "GREEN");
    assert_eq!(player_color_name(7), "RED");
}

#[test]
fn two_sources_of_input_fold_together() {
    let mut keyboard = InputFrame::default();
    keyboard.players[0].left = true;
    keyboard.pads_connected = [true, false];
    let mut touch = InputFrame::default();
    touch.players[0].jump = true;
    touch.players[1].dash = true;
    touch.menu.confirm = true;
    touch.pause = true;
    touch.pads_connected = [false, true];
    keyboard.merge(&touch);
    assert!(keyboard.players[0].left && keyboard.players[0].jump);
    assert!(keyboard.players[1].dash);
    assert!(keyboard.menu.confirm && keyboard.pause);
    assert_eq!(keyboard.pads_connected, [true, false], "which pads are plugged in is not merged");
}

#[test]
fn the_edges_of_a_frame_outlive_its_held_half() {
    let mut frame = InputFrame::default();
    frame.players[1] = PlayerIntent { right: true, attack: true, attack_held: true, slam: true, ..Default::default() };
    frame.menu.down = true;
    let edges = frame.edges_only();
    assert_eq!(edges.players[1], PlayerIntent { attack: true, slam: true, ..Default::default() });
    assert!(edges.menu.down);
}

#[test]
fn a_save_file_restores_what_it_lists_and_defaults_the_rest() {
    let s = restored(&[PlayerConfig { scheme: 3, color_index: 5 }], 10, 20, 30, 40, 7);
    assert_eq!(s.players[0], PlayerConfig { scheme: 3, color_index: 5 });
    assert_eq!(s.players[1], Settings::default().players[1]);
    assert_eq!((s.record_solo, s.record_duo, s.music_volume, s.sfx_volume, s.launches), (10, 20, 30, 40, 7));
    assert!(!s.dirty);
    let three = [PlayerConfig { scheme: 1, color_index: 1 }, PlayerConfig { scheme: 0, color_index: 2 }, PlayerConfig { scheme: 9, color_index: 9 }];
    let s = restored(&three, 0, 0, 100, 100, 0);
    assert_eq!(s.players, [three[0], three[1]], "a third player has no seat");
}

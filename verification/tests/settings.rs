use erect::config::PLAYER_COLOR_COUNT;
use erect::settings::{full_volume, Settings, VolumeChannel, VOLUME_MAX, VOLUME_STEP};

#[test]
fn records_raise_the_dirty_flag_for_the_frontend_to_persist() {
    let mut settings = Settings::default();
    assert!(!settings.dirty);
    settings.set_record(1, 500);
    assert!(settings.dirty, "frontend needs to know it must save");
    assert_eq!(settings.record(1), 500);
}

#[test]
fn volume_rows_step_by_ten_and_clamp_at_both_ends() {
    let mut settings = Settings::default();
    assert_eq!(settings.music_volume, VOLUME_MAX, "sound is on by default");

    settings.adjust_volume(VolumeChannel::Music, -1);
    assert_eq!(settings.music_volume, VOLUME_MAX - VOLUME_STEP);
    assert!(settings.dirty, "a change must ask to be saved");

    for _ in 0..40 {
        settings.adjust_volume(VolumeChannel::Music, -1);
    }
    assert_eq!(settings.music_volume, 0);
    for _ in 0..40 {
        settings.adjust_volume(VolumeChannel::Music, 1);
    }
    assert_eq!(settings.music_volume, VOLUME_MAX);

    settings.adjust_volume(VolumeChannel::Sfx, -1);
    assert_eq!(settings.sfx_volume, VOLUME_MAX - VOLUME_STEP);
    assert_eq!(settings.music_volume, VOLUME_MAX);
}

#[test]
fn a_hand_edited_volume_is_snapped_back_onto_the_step() {
    let mut settings = Settings { music_volume: 63, sfx_volume: 999, ..Settings::default() };
    settings.sanitize(2);
    assert_eq!(settings.music_volume, 60, "63 should snap to the nearest notch");
    assert_eq!(settings.sfx_volume, 100, "anything over full is full");
}

#[test]
fn the_launch_counter_survives_a_save_and_seeds_a_fresh_run() {
    let mut settings = Settings::default();
    assert_eq!(settings.launches, 0);

    settings.launches = settings.launches.wrapping_add(1);
    settings.dirty = true;
    assert_eq!(settings.launches, 1);

    settings.launches = 12345;
    settings.sanitize(2);
    assert_eq!(settings.launches, 12345, "sanitize must not touch the counter");

    let mut copy = settings.clone();
    copy.music_volume = 40;
    copy.sanitize(2);
    assert_eq!(copy.launches, 12345);
}

#[test]
fn sanitize_repairs_a_corrupt_settings_file() {
    let mut settings = Settings::default();
    settings.players[0].scheme = 99;
    settings.players[1].color_index = 99;
    settings.players[0].color_index = 3;
    settings.players[1].scheme = 0;
    settings.record_solo = -5;
    settings.sanitize(3);

    assert!(settings.players[0].scheme < 3);
    assert!(settings.players[1].color_index < PLAYER_COLOR_COUNT);
    assert_ne!(settings.players[0].color_index, settings.players[1].color_index);
    assert_eq!(settings.record_solo, 0);
}

/* ---------------- further cases ---------------- */

#[test]
fn two_players_on_one_scheme_are_pulled_apart_where_there_is_a_choice() {
    let mut settings = Settings::default();
    settings.players[1].scheme = 0;
    settings.sanitize(3);
    assert_eq!(settings.players[0].scheme, 0);
    assert_eq!(settings.players[1].scheme, 1);

    // With one scheme on offer both players have to share it.
    let mut settings = Settings::default();
    settings.sanitize(1);
    assert_eq!(settings.players[0].scheme, 0);
    assert_eq!(settings.players[1].scheme, 0);
}

#[test]
fn a_shared_colour_moves_the_second_player_on() {
    let mut settings = Settings::default();
    settings.players[0].color_index = 7;
    settings.players[1].color_index = 7;
    settings.sanitize(2);
    assert_eq!(settings.players[1].color_index, 0, "the next colour round the palette");
}

#[test]
fn a_volume_halfway_between_notches_rounds_up() {
    let mut settings = Settings { music_volume: 45, sfx_volume: 44, ..Settings::default() };
    settings.sanitize(2);
    assert_eq!(settings.music_volume, 50);
    assert_eq!(settings.sfx_volume, 40);
}

#[test]
fn stepping_a_volume_that_cannot_move_leaves_it_clean() {
    let mut settings = Settings::default();
    settings.adjust_volume(VolumeChannel::Music, 1);
    assert_eq!(settings.music_volume, 100);
    assert!(!settings.dirty, "nothing changed, so nothing needs saving");
    assert_eq!(settings.volume(VolumeChannel::Sfx), full_volume());
}

#[test]
fn each_team_size_keeps_its_own_record() {
    let mut settings = Settings::default();
    settings.set_record(2, 700);
    assert_eq!(settings.record(2), 700);
    assert_eq!(settings.record(1), 0);
    settings.set_record(1, 300);
    assert_eq!(settings.record(2), 700);
    assert_eq!(settings.record(1), 300);
}

#[test]
fn cycling_a_colour_skips_the_one_the_other_player_holds() {
    let mut settings = Settings::default();
    // Player one is on green (0), player two on cyan (1).
    settings.cycle(0, false, 1, 3);
    assert_eq!(settings.players[0].color_index, 2, "cyan is taken, so green steps to magenta");
    settings.cycle(0, false, -1, 3);
    assert_eq!(settings.players[0].color_index, 0, "and back past it the other way");
    assert!(settings.dirty);
}

#[test]
fn a_single_scheme_row_does_not_move() {
    let mut settings = Settings::default();
    settings.players[1].scheme = 0;
    let before = settings;
    settings.cycle(0, true, 1, 1);
    assert_eq!(settings, before);
}

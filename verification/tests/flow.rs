use erect::config::{GAME_OVER_TICKS, MAX_PLAYERS, PLAYER_COLOR_COUNT};
use erect::flow::{Command, Flow, Sky, Standing, Step, Work};
use erect::game::State;
use erect::input::InputFrame;
use erect::menu::{MenuAction, MenuRow};
use erect::rng::Rng;
use erect::settings::{SchemeInfo, Settings, VolumeChannel};
use erect::waves::{WaveKind, WaveManager, WaveRule};

/// Stand-in for a desktop's scheme list: two keyboards plus a pad.
const TEST_SCHEMES: [SchemeInfo; 3] = [
    SchemeInfo { label: "KB A", is_gamepad: false, pad_index: 0 },
    SchemeInfo { label: "KB B", is_gamepad: false, pad_index: 0 },
    SchemeInfo { label: "PAD 1", is_gamepad: true, pad_index: 0 },
];

/// A platform that can only seat one player, like a handheld.
const SINGLE_SCHEME: [SchemeInfo; 1] = [SchemeInfo { label: "PAD", is_gamepad: true, pad_index: 0 }];

/// Where the bottom of the field sits, as a percentage of the screen height.
const GROUND_Y_PCT: u128 = 85;

/// The screens and a stand-in for the run behind them: what a frontend keeps
/// and does with each command, minus the bodies on the field.
struct Session {
    flow: Flow,
    waves: WaveManager,
    rng: Rng,
    score: i64,
    wave: i64,
    players: usize,
}

impl Session {
    fn new() -> Self {
        Self::on(Flow::new(Settings::default(), &TEST_SCHEMES, 2))
    }

    fn single_player_platform() -> Self {
        Self::on(Flow::new(Settings::default(), &SINGLE_SCHEME, 1))
    }

    fn on(flow: Flow) -> Self {
        let mut s = Session { flow, waves: WaveManager::default(), rng: Rng::new(12345), score: 0, wave: 1, players: 1 };
        s.new_run(1);
        s
    }

    fn new_run(&mut self, players: usize) {
        self.players = players;
        self.score = 0;
        self.wave = 1;
        self.waves.begin_wave(1, &mut self.rng);
        self.waves.reset();
    }

    fn standing(&self) -> Standing {
        Standing { score: self.score, wave: self.wave, players: self.players, between_waves: self.waves.between_waves() }
    }

    fn tick(&mut self, input: &InputFrame) -> Step {
        let step = self.flow.tick(input, self.standing());
        match step.command {
            Command::Nothing => {},
            Command::StartRun(n) => {
                self.new_run(n);
                self.waves.forced_kind = None;
                self.waves.forced_rule = None;
            },
            Command::StartDevRun { players, wave } => {
                self.new_run(players);
                self.wave = wave;
                self.score = self.flow.dev.score;
                self.waves.forced_kind = self.flow.dev.kind;
                self.waves.forced_rule = self.flow.dev.rule;
                self.waves.begin_wave(wave, &mut self.rng);
            },
            Command::StartWave => self.waves.skip_countdown(),
            Command::NewRun(n) => self.new_run(n),
        }
        step
    }

    fn start_run(&mut self, n: usize) {
        let count = self.flow.start_run(n);
        self.new_run(count);
    }

    fn rows(&self) -> Vec<MenuRow> {
        self.flow.menu_rows([false; MAX_PLAYERS], self.waves.between_waves())
    }

    fn labels(&self) -> Vec<String> {
        self.rows().iter().map(|r| r.label.clone()).collect()
    }
}

fn idle() -> InputFrame {
    InputFrame::default()
}

fn pause() -> InputFrame {
    InputFrame { pause: true, ..Default::default() }
}

fn down() -> InputFrame {
    let mut f = idle();
    f.menu.down = true;
    f
}

fn confirm() -> InputFrame {
    let mut f = idle();
    f.menu.confirm = true;
    f
}

fn back() -> InputFrame {
    let mut f = idle();
    f.menu.back = true;
    f
}

fn dev_chord() -> InputFrame {
    InputFrame { dev_menu: true, ..Default::default() }
}

#[test]
fn starts_on_title_with_one_player() {
    let s = Session::new();
    assert_eq!(s.flow.state, State::Title);
    assert_eq!(s.players, 1);
    assert_eq!(s.wave, 1);
}

#[test]
fn single_controller_platform_hides_two_player_mode() {
    let mut s = Session::single_player_platform();
    let labels = s.labels();
    assert!(labels.iter().any(|l| l == "1 PLAYER"));
    assert!(!labels.iter().any(|l| l == "2 PLAYERS"), "single-pad hardware must not offer co-op: {labels:?}");

    // Even if something asks for two, the cap holds.
    s.start_run(2);
    assert_eq!(s.players, 1);
}

#[test]
fn settings_cycling_never_lets_players_share_a_scheme_or_colour() {
    let mut s = Session::new();
    for _ in 0..12 {
        s.flow.settings.cycle(0, true, 1, TEST_SCHEMES.len());
        assert_ne!(s.flow.settings.players[0].scheme, s.flow.settings.players[1].scheme);
        s.flow.settings.cycle(0, false, 1, TEST_SCHEMES.len());
        assert_ne!(s.flow.settings.players[0].color_index, s.flow.settings.players[1].color_index);
    }
}

#[test]
fn exit_is_offered_and_only_asks_the_frontend_to_quit() {
    let mut s = Session::new();
    let exit = s.rows().iter().position(|r| r.label == "EXIT").expect("the title menu should offer EXIT");

    assert!(!s.flow.quit_requested);
    s.flow.title_menu.index = exit;
    s.tick(&confirm());

    assert!(s.flow.quit_requested, "EXIT should raise the request");
    assert_eq!(s.flow.state, State::Title);
}

#[test]
fn psp_settings_survive_a_round_trip_through_the_dirty_flag() {
    let mut s = Session::new();
    s.flow.settings.dirty = false;
    s.start_run(1);
    s.flow.settings.set_record(s.players, 900);
    assert!(s.flow.settings.dirty, "a new record must ask to be saved");
}

#[test]
fn the_settings_screen_offers_both_volume_rows_and_they_adjust() {
    let mut s = Session::new();
    s.flow.state = State::Settings;
    let rows = s.rows();

    let music = rows
        .iter()
        .position(|r| r.action == MenuAction::AdjustVolume(VolumeChannel::Music))
        .expect("settings should offer a music row");
    assert!(rows[music].label.starts_with("MUSIC: "), "{}", rows[music].label);
    assert!(rows[music].is_adjustable(), "it should be a left/right row");
    assert!(rows.iter().any(|r| r.action == MenuAction::AdjustVolume(VolumeChannel::Sfx)));

    s.flow.settings_menu.index = music;
    let mut left = idle();
    left.menu.left = true;
    s.tick(&left);
    assert_eq!(s.flow.settings.music_volume, 90);
    assert!(s.rows()[music].label.ends_with("90"));
}

#[test]
fn leaving_a_run_from_pause_has_to_be_confirmed() {
    let mut s = Session::new();
    s.start_run(1);
    s.score = 900;

    s.tick(&pause());
    assert_eq!(s.flow.state, State::Paused);

    let rows = s.rows();
    assert_eq!(rows[0].action, MenuAction::Resume);
    assert_eq!(rows[1].action, MenuAction::AskAbandon, "pause needs a way out");

    s.tick(&down());
    s.tick(&confirm());
    assert_eq!(s.flow.state, State::ConfirmAbandon, "it must ask first");

    assert_eq!(s.rows()[0].action, MenuAction::KeepPlaying);
    s.tick(&confirm());
    assert_eq!(s.flow.state, State::Paused, "answering no returns to the pause menu");

    s.tick(&down());
    s.tick(&confirm());
    assert_eq!(s.flow.state, State::ConfirmAbandon);
    s.tick(&down());
    s.tick(&confirm());
    assert_eq!(s.flow.state, State::Title, "yes should end the run");
    assert_eq!(s.flow.settings.record(1), 900, "the score was earned and should stand");
}

#[test]
fn backing_out_of_the_question_keeps_the_run() {
    let mut s = Session::new();
    s.start_run(1);
    s.tick(&pause());

    s.tick(&down());
    s.tick(&confirm());
    assert_eq!(s.flow.state, State::ConfirmAbandon);

    s.tick(&back());
    assert_eq!(s.flow.state, State::Paused);

    s.tick(&pause());
    assert_eq!(s.flow.state, State::Playing);
}

#[test]
fn the_pause_menu_offers_the_next_wave_only_during_the_lull() {
    let mut s = Session::new();
    s.start_run(1);

    s.waves.skip_countdown();
    s.tick(&pause());
    assert_eq!(s.flow.state, State::Paused);
    let labels = s.labels();
    assert!(!labels.iter().any(|l| l == "START WAVE"), "nothing to start mid-wave: {labels:?}");

    s.tick(&pause());
    s.waves.begin_countdown(10);
    s.tick(&pause());
    assert_eq!(s.flow.state, State::Paused);
    let rows = s.rows();
    assert_eq!(rows[0].action, MenuAction::Resume, "resume must stay first");
    assert_eq!(rows[1].action, MenuAction::StartWave);
    assert_eq!(rows[2].action, MenuAction::AskAbandon);
}

#[test]
fn starting_the_wave_from_the_pause_menu_ends_the_lull_and_resumes() {
    let mut s = Session::new();
    s.start_run(1);
    s.waves.begin_countdown(10);

    s.tick(&pause());
    assert!(s.waves.between_waves(), "the lull should still be running");

    s.tick(&down());
    let step = s.tick(&confirm());
    assert_eq!(step.command, Command::StartWave);

    assert!(!s.waves.between_waves(), "the lull should be over");
    assert_eq!(s.flow.state, State::Playing, "and the game should be running again");
}

#[test]
fn death_shows_a_result_screen_that_freezes_everything_then_returns_to_title() {
    let mut s = Session::new();
    s.start_run(1);
    s.score = 4200;
    s.flow.end_run(s.standing());
    assert_eq!(s.flow.state, State::GameOver, "death should open the result screen");

    let result = s.flow.result.expect("a result should be recorded");
    assert_eq!(result.score, 4200);
    assert!(result.is_record, "4200 beats the default record of 0");

    let mut hammering = confirm();
    hammering.pause = true;
    hammering.players[0].jump = true;
    for _ in 0..GAME_OVER_TICKS {
        assert!(!s.flow.awaiting_dismiss(), "the prompt is early");
        let step = s.tick(&hammering);
        assert_eq!(step.work, Work::Hold, "nothing should move");
        assert_eq!(s.flow.state, State::GameOver, "the hold must not be skippable");
    }

    assert!(s.flow.awaiting_dismiss(), "the prompt should be showing now");
    for _ in 0..600 {
        s.tick(&idle());
        assert_eq!(s.flow.state, State::GameOver, "it should wait for a key, not time out");
    }

    let step = s.tick(&confirm());
    assert_eq!(step.command, Command::NewRun(1));
    assert_eq!(s.flow.state, State::Title);
    assert!(s.flow.result.is_none());
    assert_eq!(s.flow.settings.record(1), 4200, "the record should have been kept");
}

#[test]
fn the_dev_menu_opens_from_the_title_and_nowhere_else() {
    let mut s = Session::new();
    s.tick(&dev_chord());
    assert_eq!(s.flow.state, State::DevMenu, "the chord should open it from the title");

    let mut s = Session::new();
    s.flow.state = State::Settings;
    s.tick(&dev_chord());
    assert_eq!(s.flow.state, State::Settings);

    let mut s = Session::new();
    s.start_run(1);
    s.tick(&dev_chord());
    assert_eq!(s.flow.state, State::Playing);
}

#[test]
fn a_dev_run_starts_on_the_wave_and_score_it_was_given() {
    let mut s = Session::new();
    s.flow.dev.wave = 17;
    s.flow.dev.score = 12_500;
    s.flow.dev.players = 1;
    s.flow.state = State::DevMenu;
    // START is the sixth row.
    s.flow.dev_menu.index = 5;
    let step = s.tick(&confirm());

    assert_eq!(step.command, Command::StartDevRun { players: 1, wave: 17 });
    assert_eq!(s.flow.state, State::Playing);
    assert_eq!(s.wave, 17);
    assert_eq!(s.score, 12_500, "the team total should be what the menu showed");
}

#[test]
fn pinned_modifiers_hold_for_every_wave_of_the_run() {
    let mut s = Session::new();
    s.flow.dev.wave = 3;
    s.flow.dev.kind = Some(WaveKind::FlyersOnly);
    s.flow.dev.rule = Some(WaveRule::NoJumps);
    s.flow.state = State::DevMenu;
    s.flow.dev_menu.index = 5;
    s.tick(&confirm());

    assert_eq!(s.waves.kind, WaveKind::FlyersOnly);
    assert_eq!(s.waves.rule, WaveRule::NoJumps);
    for wave in 4..30 {
        s.waves.begin_wave(wave, &mut s.rng);
        assert_eq!(s.waves.kind, WaveKind::FlyersOnly, "wave {wave} lost the pin");
        assert_eq!(s.waves.rule, WaveRule::NoJumps, "wave {wave} lost the pin");
    }
}

#[test]
fn the_dev_menu_fits_on_a_psp_screen() {
    let s = Session::single_player_platform();
    let rows = s.rows().len();
    let last = s.flow.dev_menu.row_y_pct(rows - 1);
    assert!(s.flow.state == State::Title || last < GROUND_Y_PCT, "the last row would land at {last}%, under the floor");

    let mut s = Session::single_player_platform();
    s.flow.state = State::DevMenu;
    let rows = s.rows().len();
    let last = s.flow.dev_menu.row_y_pct(rows - 1);
    assert!(last < GROUND_Y_PCT, "the last of {rows} rows lands at {last}%");
}

#[test]
fn a_dev_run_honours_the_platform_player_limit() {
    let mut s = Session::single_player_platform();
    s.flow.dev.players = 2;
    let (players, wave) = s.flow.start_dev_run();
    assert_eq!(players, 1);
    assert_eq!(wave, 1);
}

/* ---------------- the screens, row by row ---------------- */

#[test]
fn the_title_lists_its_rows_in_order() {
    let s = Session::new();
    assert_eq!(s.labels(), vec!["1 PLAYER", "2 PLAYERS", "SETTINGS", "EXIT"]);
    let actions: Vec<MenuAction> = s.rows().iter().map(|r| r.action).collect();
    assert_eq!(
        actions,
        vec![MenuAction::StartRun(1), MenuAction::StartRun(2), MenuAction::OpenSettings, MenuAction::Quit]
    );
}

#[test]
fn the_settings_rows_name_schemes_colours_and_volumes() {
    let mut s = Session::new();
    s.flow.state = State::Settings;
    s.flow.settings.players[1].scheme = 2;
    s.flow.settings.music_volume = 40;
    assert_eq!(
        s.labels(),
        vec!["P1: KB A", "P1 COLOR: GREEN", "P2: PAD 1 (OFF)", "P2 COLOR: CYAN", "MUSIC: 40", "EFFECTS: 100", "BACK"]
    );
    // A plugged-in pad gets its star instead.
    let rows = s.flow.menu_rows([true, false], false);
    assert_eq!(rows[2].label, "P2: PAD 1 *");
    assert_eq!(rows[1].swatch, Some(0));
    assert_eq!(rows[3].swatch, Some(1));
    assert_eq!(rows[0].swatch, None);
}

#[test]
fn the_dev_rows_show_what_the_run_will_start_on() {
    let mut s = Session::new();
    s.flow.state = State::DevMenu;
    s.flow.dev.wave = 12;
    s.flow.dev.score = 1500;
    s.flow.dev.players = 2;
    assert_eq!(
        s.labels(),
        vec!["WAVE: 12", "SCORE: 1500", "KIND: ANY", "RULE: ANY", "PLAYERS: 2", "START", "BACK"]
    );
    // A single-seat platform shows one player whatever was asked for.
    let mut s = Session::single_player_platform();
    s.flow.state = State::DevMenu;
    s.flow.dev.players = 2;
    assert_eq!(s.labels()[4], "PLAYERS: 1");
}

#[test]
fn the_cursor_wraps_round_the_menu() {
    let mut s = Session::new();
    let mut up = idle();
    up.menu.up = true;
    s.tick(&up);
    assert_eq!(s.flow.title_menu.index, 3, "up from the top lands on the last row");
    s.tick(&down());
    assert_eq!(s.flow.title_menu.index, 0, "and down from the last comes back to the top");
}

#[test]
fn backing_out_of_settings_returns_to_the_title() {
    let mut s = Session::new();
    s.flow.title_menu.index = 2;
    s.tick(&confirm());
    assert_eq!(s.flow.state, State::Settings);
    assert_eq!(s.flow.settings_menu.index, 0);
    s.tick(&back());
    assert_eq!(s.flow.state, State::Title);
    assert_eq!(s.flow.title_menu.index, 0);
}

#[test]
fn arriving_at_the_title_is_noticed_once() {
    let mut s = Session::new();
    s.start_run(1);
    s.tick(&idle());
    s.tick(&pause());
    s.tick(&down());
    s.tick(&confirm());
    s.tick(&down());
    s.tick(&confirm());
    assert_eq!(s.flow.state, State::Title);
    let first = s.tick(&idle());
    assert!(first.arrived_at_title, "the first tick on the title should notice the arrival");
    assert_eq!(first.sky, Sky::Menu);
    let second = s.tick(&idle());
    assert!(!second.arrived_at_title, "and only the first");
}

#[test]
fn leaving_the_menus_hands_the_sky_back() {
    let mut s = Session::new();
    s.tick(&idle());
    s.start_run(1);
    let step = s.tick(&idle());
    assert_eq!(step.sky, Sky::Restore, "the first tick of play restores the wave's sky");
    assert_eq!(step.work, Work::Simulate);
    let step = s.tick(&idle());
    assert_eq!(step.sky, Sky::Keep);
}

#[test]
fn pausing_mid_run_holds_the_field_for_that_tick() {
    let mut s = Session::new();
    s.start_run(1);
    let step = s.tick(&pause());
    assert_eq!(step.work, Work::Hold);
    assert_eq!(s.flow.state, State::Paused);
    let step = s.tick(&idle());
    assert_eq!(step.work, Work::Present);
}

#[test]
fn a_new_flow_repairs_what_it_is_given() {
    let mut settings = Settings::default();
    settings.players[1].color_index = 0;
    settings.players[0].scheme = 40;
    let flow = Flow::new(settings, &TEST_SCHEMES, 9);
    assert_eq!(flow.max_players, 2, "a platform cannot seat more than two");
    assert_ne!(flow.settings.players[0].color_index, flow.settings.players[1].color_index);
    assert!(flow.settings.players[0].scheme < TEST_SCHEMES.len());
    assert!(flow.settings.players[1].color_index < PLAYER_COLOR_COUNT);
    let flow = Flow::new(Settings::default(), &TEST_SCHEMES, 0);
    assert_eq!(flow.max_players, 1, "nor fewer than one");
}

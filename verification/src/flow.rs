//! The screens around a run: the title, settings, the developer menu, pause,
//! the question before abandoning, and the result screen.
//!
//! This is the part of a tick that decides rather than moves. The frontend
//! runs the field; each tick it hands over the input and where the run stands,
//! and gets back what to do with the field and the sky.
use vstd::prelude::*;

use crate::config::{player_color_name, spec_color_name, GAME_OVER_TICKS, MAX_PLAYERS, PLAYER_COLOR_COUNT};
use crate::dev::{
    dev_kind_label, dev_rule_label, spec_adjust_players, spec_adjust_score, spec_adjust_wave,
    spec_cycle_kind, spec_cycle_rule, DevSetup, DEV_SCORE_STEP,
};
use crate::game::{spec_closed_settings, RunResult, State};
use crate::input::{InputFrame, MenuIntent};
use crate::menu::{spec_move_by, Menu, MenuAction, MenuRow};
use crate::settings::{
    spec_adjust_volume, spec_cycle, spec_record, spec_sanitize, SchemeInfo, Settings, VolumeChannel,
};
use crate::text::{decimal, signed_decimal, spec_decimal, spec_signed_decimal};

verus! {

/// Where each menu's first row sits, as a percentage of the screen height.
pub const TITLE_MENU_TOP_PCT: u32 = 42;
pub const SETTINGS_MENU_TOP_PCT: u32 = 26;
pub const PAUSE_MENU_TOP_PCT: u32 = 48;
pub const CONFIRM_MENU_TOP_PCT: u32 = 52;
pub const DEV_MENU_TOP_PCT: u32 = 26;

/// A menu row as the contracts see it: label, action and colour swatch.
pub type RowView = (Seq<char>, MenuAction, Option<usize>);

/// Where the run stands, as the frontend reports it each tick.
#[derive(Clone, Copy, Debug, PartialEq, Eq, Structural)]
pub struct Standing {
    /// The team's combined score.
    pub score: i64,
    pub wave: i64,
    /// Players in the run, standing or down.
    pub players: usize,
    /// The lull between waves, when the next one can be called early.
    pub between_waves: bool,
}

/// What the sky should do this tick.
#[derive(Clone, Copy, Debug, PartialEq, Eq, Structural)]
pub enum Sky {
    /// A menu is up and owns the sky.
    Menu,
    /// A menu just went away: hand the sky back to whatever the wave last asked for.
    Restore,
    Keep,
}

/// What the field does this tick.
#[derive(Clone, Copy, Debug, PartialEq, Eq, Structural)]
pub enum Work {
    /// Nothing plays; the view drifts behind the menu.
    Drift,
    /// The run is paused or asking; only the presentation moves.
    Present,
    /// Everything holds still.
    Hold,
    /// The run plays: players act and the field simulates.
    Simulate,
}

/// Something the frontend has to do to the run itself.
#[derive(Clone, Copy, Debug, PartialEq, Eq, Structural)]
pub enum Command {
    Nothing,
    /// Set up an ordinary run for this many players, with nothing pinned.
    StartRun(usize),
    /// Set up a run for this many players on the developer menu's parameters,
    /// starting on this wave.
    StartDevRun { players: usize, wave: i64 },
    /// End the lull and bring the next wave on now.
    StartWave,
    /// The run is over and the title is up: set the field up afresh for this
    /// many players.
    NewRun(usize),
}

/// What one tick decided.
#[derive(Clone, Copy, Debug, PartialEq, Eq, Structural)]
pub struct Step {
    /// The title screen was just arrived at, which draws a new soundtrack.
    pub arrived_at_title: bool,
    pub sky: Sky,
    pub command: Command,
    pub work: Work,
}

/// The menus, the settings they edit, and the state of the screen.
#[derive(Clone, Copy, Debug)]
pub struct Flow {
    pub state: State,
    /// The state the last tick started in, so an arrival is noticed once.
    pub last_state: State,
    pub settings: Settings,
    /// Control schemes this platform offers, supplied by the frontend.
    pub schemes: &'static [SchemeInfo],
    /// How many players the hardware can seat.
    pub max_players: usize,
    pub title_menu: Menu,
    pub settings_menu: Menu,
    pub pause_menu: Menu,
    pub confirm_menu: Menu,
    pub dev_menu: Menu,
    /// What the developer menu will start a run on. Kept across visits.
    pub dev: DevSetup,
    /// Set while the result screen is up.
    pub result: Option<RunResult>,
    /// Ticks the result screen still refuses input for.
    pub result_ticks: i32,
    /// The player picked EXIT; the frontend shuts down its own way.
    pub quit_requested: bool,
}

pub open spec fn is_menu_state(s: State) -> bool {
    s == State::Title || s == State::Settings || s == State::DevMenu
}

pub open spec fn clamp_players(n: usize, max: usize) -> usize {
    if n < 1 {
        1
    } else if n > max {
        max
    } else {
        n
    }
}

pub open spec fn plain_row(label: Seq<char>, action: MenuAction) -> RowView {
    (label, action, None)
}

/// The marker after a gamepad scheme: a star when its pad is plugged in.
pub open spec fn scheme_suffix(scheme: SchemeInfo, pads: [bool; MAX_PLAYERS]) -> Seq<char> {
    if scheme.is_gamepad {
        if scheme.pad_index < MAX_PLAYERS && pads[scheme.pad_index as int] {
            " *"@
        } else {
            " (OFF)"@
        }
    } else {
        ""@
    }
}

pub open spec fn rows_view(rows: Seq<MenuRow>) -> Seq<RowView> {
    rows.map_values(|r: MenuRow| r@)
}

impl Flow {
    /// What every flow keeps true: the platform seats one or two and offers at
    /// least one scheme, both players' colours name real entries, and the
    /// developer rows have room to step. A scheme index past the list is read
    /// as its last entry.
    pub open spec fn wf(self) -> bool {
        &&& 1 <= self.max_players <= MAX_PLAYERS
        &&& self.schemes@.len() >= 1
        &&& self.settings.players[0].color_index < PLAYER_COLOR_COUNT
        &&& self.settings.players[1].color_index < PLAYER_COLOR_COUNT
        &&& i64::MIN < self.dev.wave < i64::MAX
        &&& i64::MIN + DEV_SCORE_STEP <= self.dev.score <= i64::MAX - DEV_SCORE_STEP
    }

    /// The scheme a player's row shows; an index past the list shows the last.
    pub open spec fn scheme_of(self, player: int) -> SchemeInfo {
        let s = self.settings.players[player].scheme as int;
        let last = self.schemes@.len() - 1;
        self.schemes@[if s < last { s } else { last }]
    }

    pub open spec fn player_rows(self, pads: [bool; MAX_PLAYERS], player: int) -> Seq<RowView> {
        let name = "P"@ + spec_decimal((player + 1) as nat);
        let color = self.settings.players[player].color_index;
        seq![
            plain_row(
                name + ": "@ + self.scheme_of(player).label@ + scheme_suffix(self.scheme_of(player), pads),
                MenuAction::AdjustScheme(player as usize),
            ),
            (name + " COLOR: "@ + spec_color_name(color as int), MenuAction::AdjustColor(player as usize), Some(color)),
        ]
    }

    pub open spec fn spec_title_rows(self) -> Seq<RowView> {
        if self.max_players >= 2 {
            seq![
                plain_row("1 PLAYER"@, MenuAction::StartRun(1)),
                plain_row("2 PLAYERS"@, MenuAction::StartRun(2)),
                plain_row("SETTINGS"@, MenuAction::OpenSettings),
                plain_row("EXIT"@, MenuAction::Quit),
            ]
        } else {
            seq![
                plain_row("1 PLAYER"@, MenuAction::StartRun(1)),
                plain_row("SETTINGS"@, MenuAction::OpenSettings),
                plain_row("EXIT"@, MenuAction::Quit),
            ]
        }
    }

    /// Resume comes first, so a mashed confirm gives the breather back; the
    /// next wave is only offered during the lull.
    pub open spec fn spec_pause_rows(between_waves: bool) -> Seq<RowView> {
        if between_waves {
            seq![
                plain_row("RESUME"@, MenuAction::Resume),
                plain_row("START WAVE"@, MenuAction::StartWave),
                plain_row("EXIT"@, MenuAction::AskAbandon),
            ]
        } else {
            seq![plain_row("RESUME"@, MenuAction::Resume), plain_row("EXIT"@, MenuAction::AskAbandon)]
        }
    }

    /// "No" sits first, so a mashed confirm keeps the run.
    pub open spec fn spec_confirm_rows() -> Seq<RowView> {
        seq![plain_row("NO"@, MenuAction::KeepPlaying), plain_row("YES"@, MenuAction::AbandonRun)]
    }

    pub open spec fn spec_dev_rows(self) -> Seq<RowView> {
        let shown_players = if self.dev.players < self.max_players { self.dev.players } else { self.max_players };
        seq![
            plain_row("WAVE: "@ + spec_signed_decimal(self.dev.wave as int), MenuAction::AdjustDevWave),
            plain_row("SCORE: "@ + spec_signed_decimal(self.dev.score as int), MenuAction::AdjustDevScore),
            plain_row("KIND: "@ + dev_kind_label(self.dev.kind), MenuAction::AdjustDevKind),
            plain_row("RULE: "@ + dev_rule_label(self.dev.rule), MenuAction::AdjustDevRule),
            plain_row("PLAYERS: "@ + spec_decimal(shown_players as nat), MenuAction::AdjustDevPlayers),
            plain_row("START"@, MenuAction::StartDevRun),
            plain_row("BACK"@, MenuAction::Back),
        ]
    }

    pub open spec fn spec_settings_rows(self, pads: [bool; MAX_PLAYERS]) -> Seq<RowView> {
        let players = if self.max_players >= 2 {
            self.player_rows(pads, 0) + self.player_rows(pads, 1)
        } else {
            self.player_rows(pads, 0)
        };
        players + seq![
            plain_row(
                "MUSIC: "@ + spec_decimal(self.settings.music_volume as nat),
                MenuAction::AdjustVolume(VolumeChannel::Music),
            ),
            plain_row(
                "EFFECTS: "@ + spec_decimal(self.settings.sfx_volume as nat),
                MenuAction::AdjustVolume(VolumeChannel::Sfx),
            ),
            plain_row("BACK"@, MenuAction::Back),
        ]
    }

    /// The rows of whichever menu is up. The title's rows stand for every
    /// screen that has no menu of its own.
    #[verifier::opaque]
    pub open spec fn spec_rows(self, pads: [bool; MAX_PLAYERS], between_waves: bool) -> Seq<RowView> {
        match self.state {
            State::Paused => Self::spec_pause_rows(between_waves),
            State::ConfirmAbandon => Self::spec_confirm_rows(),
            State::DevMenu => self.spec_dev_rows(),
            State::Settings => self.spec_settings_rows(pads),
            _ => self.spec_title_rows(),
        }
    }

    pub open spec fn current_menu(self) -> Menu {
        match self.state {
            State::Settings => self.settings_menu,
            State::DevMenu => self.dev_menu,
            State::Paused => self.pause_menu,
            State::ConfirmAbandon => self.confirm_menu,
            _ => self.title_menu,
        }
    }

    pub open spec fn with_current_menu(self, m: Menu) -> Flow {
        match self.state {
            State::Settings => Flow { settings_menu: m, ..self },
            State::DevMenu => Flow { dev_menu: m, ..self },
            State::Paused => Flow { pause_menu: m, ..self },
            State::ConfirmAbandon => Flow { confirm_menu: m, ..self },
            _ => Flow { title_menu: m, ..self },
        }
    }

    /// The action under the cursor, if the cursor is on a row.
    pub open spec fn spec_selected(self, between_waves: bool) -> Option<MenuAction> {
        let rows = self.spec_rows([false, false], between_waves);
        let i = self.current_menu().index;
        if i < rows.len() {
            Some(rows[i as int].1)
        } else {
            None
        }
    }

    pub open spec fn spec_moved(self, delta: int, between_waves: bool) -> Flow {
        let count = self.spec_rows([false, false], between_waves).len() as usize;
        self.with_current_menu(spec_move_by(self.current_menu(), delta, count))
    }

    /// Left or right on the selected row; rows that hold no value ignore it.
    #[verifier::opaque]
    pub open spec fn spec_adjusted(self, dir: int, between_waves: bool) -> Flow {
        let count = self.schemes.len();
        match self.spec_selected(between_waves) {
            Some(MenuAction::AdjustScheme(i)) => Flow { settings: spec_cycle(self.settings, i, true, dir, count), ..self },
            Some(MenuAction::AdjustColor(i)) => Flow { settings: spec_cycle(self.settings, i, false, dir, count), ..self },
            Some(MenuAction::AdjustVolume(ch)) => Flow { settings: spec_adjust_volume(self.settings, ch, dir), ..self },
            Some(MenuAction::AdjustDevWave) => Flow { dev: spec_adjust_wave(self.dev, dir), ..self },
            Some(MenuAction::AdjustDevScore) => Flow { dev: spec_adjust_score(self.dev, dir), ..self },
            Some(MenuAction::AdjustDevKind) => Flow { dev: spec_cycle_kind(self.dev, dir), ..self },
            Some(MenuAction::AdjustDevRule) => Flow { dev: spec_cycle_rule(self.dev, dir), ..self },
            Some(MenuAction::AdjustDevPlayers) => Flow { dev: spec_adjust_players(self.dev, dir, self.max_players), ..self },
            _ => self,
        }
    }

    pub open spec fn spec_toggled_pause(self) -> Flow {
        match self.state {
            State::Playing => Flow { state: State::Paused, pause_menu: Menu { index: 0, ..self.pause_menu }, ..self },
            State::Paused => Flow { state: State::Playing, ..self },
            _ => self,
        }
    }

    pub open spec fn spec_to_title(self) -> Flow {
        Flow { state: State::Title, title_menu: Menu { index: 0, ..self.title_menu }, ..self }
    }

    pub open spec fn spec_to_pause_menu(self) -> Flow {
        Flow { state: State::Paused, pause_menu: Menu { index: 0, ..self.pause_menu }, ..self }
    }

    pub open spec fn spec_opened_dev_menu(self) -> Flow {
        Flow { state: State::DevMenu, dev_menu: Menu { index: 0, ..self.dev_menu }, ..self }
    }

    /// The run ended on `standing`: the result goes up, held for
    /// [`GAME_OVER_TICKS`], and a record is kept if the score beat it.
    pub open spec fn spec_ended(self, standing: Standing) -> Flow {
        Flow {
            settings: spec_closed_settings(self.settings, standing.score, standing.players),
            result: Some(
                RunResult {
                    score: standing.score,
                    wave: standing.wave,
                    players: standing.players,
                    is_record: standing.score > spec_record(self.settings, standing.players),
                },
            ),
            result_ticks: GAME_OVER_TICKS,
            state: State::GameOver,
            ..self
        }
    }

    /// Leaving the result screen: back to the title, with the result gone.
    pub open spec fn spec_finished(self) -> Flow {
        Flow { result: None, ..self.spec_to_title() }
    }

    #[verifier::opaque]
    pub open spec fn spec_confirmed(self, standing: Standing) -> (Flow, Command) {
        let b = standing.between_waves;
        match self.spec_selected(b) {
            Some(MenuAction::StartRun(n)) => (
                Flow { state: State::Playing, ..self },
                Command::StartRun(clamp_players(n, self.max_players)),
            ),
            Some(MenuAction::OpenSettings) => (
                Flow { state: State::Settings, settings_menu: Menu { index: 0, ..self.settings_menu }, ..self },
                Command::Nothing,
            ),
            Some(MenuAction::Back) => (self.spec_to_title(), Command::Nothing),
            Some(MenuAction::StartDevRun) => (
                Flow { state: State::Playing, ..self },
                Command::StartDevRun {
                    players: clamp_players(self.dev.players, self.max_players),
                    wave: if self.dev.wave < 1 { 1 } else { self.dev.wave },
                },
            ),
            Some(MenuAction::Quit) => (Flow { quit_requested: true, ..self }, Command::Nothing),
            Some(MenuAction::Resume) => (self.spec_toggled_pause(), Command::Nothing),
            Some(MenuAction::StartWave) => (self.spec_toggled_pause(), Command::StartWave),
            Some(MenuAction::AskAbandon) => (
                Flow { state: State::ConfirmAbandon, confirm_menu: Menu { index: 0, ..self.confirm_menu }, ..self },
                Command::Nothing,
            ),
            Some(MenuAction::KeepPlaying) => (self.spec_to_pause_menu(), Command::Nothing),
            // Same road as dying, minus the result screen: the score still
            // counts towards the record.
            Some(MenuAction::AbandonRun) => (
                self.spec_ended(standing).spec_finished(),
                Command::NewRun(standing.players),
            ),
            // Adjustable rows step forward when confirmed.
            Some(_) => (self.spec_adjusted(1, b), Command::Nothing),
            None => (self, Command::Nothing),
        }
    }

    /// Backing out of settings goes to the title; backing out of the question
    /// is the same as answering "no".
    pub open spec fn spec_backed(self) -> Flow {
        match self.state {
            State::Settings => self.spec_to_title(),
            State::ConfirmAbandon => self.spec_to_pause_menu(),
            _ => self,
        }
    }

    /// One frame of menu input, in the order the buttons are read.
    pub open spec fn spec_handled(self, m: MenuIntent, standing: Standing) -> (Flow, Command) {
        let b = standing.between_waves;
        let f1 = if m.up { self.spec_moved(-1, b) } else { self };
        let f2 = if m.down { f1.spec_moved(1, b) } else { f1 };
        let f3 = if m.left { f2.spec_adjusted(-1, b) } else { f2 };
        let f4 = if m.right { f3.spec_adjusted(1, b) } else { f3 };
        let (f5, c) = if m.confirm { f4.spec_confirmed(standing) } else { (f4, Command::Nothing) };
        let f6 = if m.back { f5.spec_backed() } else { f5 };
        (f6, c)
    }

    /// One tick of the screens.
    pub open spec fn spec_tick(self, input: InputFrame, standing: Standing) -> (Flow, Step) {
        let arrived = self.state == State::Title && self.last_state != State::Title;
        let sky = if is_menu_state(self.state) {
            Sky::Menu
        } else if is_menu_state(self.last_state) {
            Sky::Restore
        } else {
            Sky::Keep
        };
        let f0 = Flow { last_state: self.state, ..self };
        let step = |command: Command, work: Work| Step { arrived_at_title: arrived, sky, command, work };
        match self.state {
            State::Title | State::Settings | State::DevMenu => {
                let f1 = if input.dev_menu && self.state == State::Title { f0.spec_opened_dev_menu() } else { f0 };
                let (f2, c) = f1.spec_handled(input.menu, standing);
                (f2, step(c, Work::Drift))
            },
            State::Paused => if input.pause {
                (f0.spec_toggled_pause(), step(Command::Nothing, Work::Present))
            } else {
                let (f2, c) = f0.spec_handled(input.menu, standing);
                (f2, step(c, Work::Present))
            },
            State::ConfirmAbandon => {
                let (f2, c) = f0.spec_handled(input.menu, standing);
                (f2, step(c, Work::Present))
            },
            State::GameOver => if f0.result_ticks > 0 {
                (Flow { result_ticks: (f0.result_ticks - 1) as i32, ..f0 }, step(Command::Nothing, Work::Hold))
            } else if input.menu.confirm || input.menu.back {
                (f0.spec_finished(), step(Command::NewRun(standing.players), Work::Hold))
            } else {
                (f0, step(Command::Nothing, Work::Hold))
            },
            State::Playing => if input.pause {
                (f0.spec_toggled_pause(), step(Command::Nothing, Work::Hold))
            } else {
                (f0, step(Command::Nothing, Work::Simulate))
            },
        }
    }
}

/// `a` followed by `b`, as a new string.
fn joined(a: &str, b: &str) -> (s: String)
    ensures
        s@ == a@ + b@,
{
    let mut s = String::from_str(a);
    s.append(b);
    s
}

fn plain(label: String, action: MenuAction) -> (r: MenuRow)
    ensures
        r@ == plain_row(label@, action),
{
    MenuRow { label, action, swatch: None }
}

impl Flow {
    /// A fresh set of screens on the title, around settings made safe for this
    /// platform's schemes, seating between one and [`MAX_PLAYERS`].
    pub fn new(settings: Settings, schemes: &'static [SchemeInfo], max_players: usize) -> (f: Flow)
        requires
            schemes@.len() >= 1,
        ensures
            f.wf(),
            f.state == State::Title,
            f.last_state == State::Title,
            f.settings == spec_sanitize(settings, schemes.len()),
            f.schemes == schemes,
            f.max_players == clamp_players(max_players, MAX_PLAYERS),
            f.title_menu == (Menu { top_pct: TITLE_MENU_TOP_PCT, index: 0 }),
            f.settings_menu == (Menu { top_pct: SETTINGS_MENU_TOP_PCT, index: 0 }),
            f.pause_menu == (Menu { top_pct: PAUSE_MENU_TOP_PCT, index: 0 }),
            f.confirm_menu == (Menu { top_pct: CONFIRM_MENU_TOP_PCT, index: 0 }),
            f.dev_menu == (Menu { top_pct: DEV_MENU_TOP_PCT, index: 0 }),
            f.dev == crate::dev::default_dev(),
            f.result.is_none(),
            f.result_ticks == 0,
            !f.quit_requested,
    {
        let mut settings = settings;
        settings.sanitize(schemes.len());
        let max_players = if max_players < 1 {
            1
        } else if max_players > MAX_PLAYERS {
            MAX_PLAYERS
        } else {
            max_players
        };
        Flow {
            state: State::Title,
            last_state: State::Title,
            settings,
            schemes,
            max_players,
            title_menu: Menu::new(TITLE_MENU_TOP_PCT),
            settings_menu: Menu::new(SETTINGS_MENU_TOP_PCT),
            pause_menu: Menu::new(PAUSE_MENU_TOP_PCT),
            confirm_menu: Menu::new(CONFIRM_MENU_TOP_PCT),
            dev_menu: Menu::new(DEV_MENU_TOP_PCT),
            dev: DevSetup::default(),
            result: None,
            result_ticks: 0,
            quit_requested: false,
        }
    }

    fn title_rows(&self) -> (rows: Vec<MenuRow>)
        ensures
            rows_view(rows@) == self.spec_title_rows(),
    {
        let mut rows: Vec<MenuRow> = Vec::new();
        rows.push(plain(String::from_str("1 PLAYER"), MenuAction::StartRun(1)));
        if self.max_players >= 2 {
            rows.push(plain(String::from_str("2 PLAYERS"), MenuAction::StartRun(2)));
        }
        rows.push(plain(String::from_str("SETTINGS"), MenuAction::OpenSettings));
        rows.push(plain(String::from_str("EXIT"), MenuAction::Quit));
        assert(rows_view(rows@) =~= self.spec_title_rows());
        rows
    }

    fn pause_rows(between_waves: bool) -> (rows: Vec<MenuRow>)
        ensures
            rows_view(rows@) == Self::spec_pause_rows(between_waves),
    {
        let mut rows: Vec<MenuRow> = Vec::new();
        rows.push(plain(String::from_str("RESUME"), MenuAction::Resume));
        if between_waves {
            rows.push(plain(String::from_str("START WAVE"), MenuAction::StartWave));
        }
        rows.push(plain(String::from_str("EXIT"), MenuAction::AskAbandon));
        assert(rows_view(rows@) =~= Self::spec_pause_rows(between_waves));
        rows
    }

    fn confirm_rows() -> (rows: Vec<MenuRow>)
        ensures
            rows_view(rows@) == Self::spec_confirm_rows(),
    {
        let mut rows: Vec<MenuRow> = Vec::new();
        rows.push(plain(String::from_str("NO"), MenuAction::KeepPlaying));
        rows.push(plain(String::from_str("YES"), MenuAction::AbandonRun));
        assert(rows_view(rows@) =~= Self::spec_confirm_rows());
        rows
    }

    fn dev_rows(&self) -> (rows: Vec<MenuRow>)
        ensures
            rows_view(rows@) == self.spec_dev_rows(),
    {
        let shown_players = if self.dev.players < self.max_players { self.dev.players } else { self.max_players };
        let mut rows: Vec<MenuRow> = Vec::new();
        rows.push(plain(joined("WAVE: ", signed_decimal(self.dev.wave).as_str()), MenuAction::AdjustDevWave));
        rows.push(plain(joined("SCORE: ", signed_decimal(self.dev.score).as_str()), MenuAction::AdjustDevScore));
        rows.push(plain(joined("KIND: ", self.dev.kind_label()), MenuAction::AdjustDevKind));
        rows.push(plain(joined("RULE: ", self.dev.rule_label()), MenuAction::AdjustDevRule));
        rows.push(plain(joined("PLAYERS: ", decimal(shown_players as u128).as_str()), MenuAction::AdjustDevPlayers));
        rows.push(plain(String::from_str("START"), MenuAction::StartDevRun));
        rows.push(plain(String::from_str("BACK"), MenuAction::Back));
        assert(rows_view(rows@) =~= self.spec_dev_rows());
        rows
    }

    /// The two rows of one player on the settings screen.
    fn push_player_rows(&self, rows: &mut Vec<MenuRow>, pads: [bool; MAX_PLAYERS], player: usize)
        requires
            self.wf(),
            player < MAX_PLAYERS,
        ensures
            rows_view(final(rows)@) == rows_view(old(rows)@) + self.player_rows(pads, player as int),
    {
        let cfg = self.settings.players[player];
        let last = self.schemes.len() - 1;
        let at = if cfg.scheme < last { cfg.scheme } else { last };
        let scheme = self.schemes[at];
        let suffix: &str = if scheme.is_gamepad {
            if scheme.pad_index < MAX_PLAYERS && pads[scheme.pad_index] {
                " *"
            } else {
                " (OFF)"
            }
        } else {
            ""
        };
        let number = decimal((player + 1) as u128);
        let mut label = joined("P", number.as_str());
        label.append(": ");
        label.append(scheme.label);
        label.append(suffix);
        rows.push(MenuRow { label, action: MenuAction::AdjustScheme(player), swatch: None });

        let mut color = joined("P", number.as_str());
        color.append(" COLOR: ");
        color.append(player_color_name(cfg.color_index));
        rows.push(MenuRow { label: color, action: MenuAction::AdjustColor(player), swatch: Some(cfg.color_index) });
        assert(rows_view(rows@) =~= rows_view(old(rows)@) + self.player_rows(pads, player as int));
    }

    fn settings_rows(&self, pads: [bool; MAX_PLAYERS]) -> (rows: Vec<MenuRow>)
        requires
            self.wf(),
        ensures
            rows_view(rows@) == self.spec_settings_rows(pads),
    {
        let mut rows: Vec<MenuRow> = Vec::new();
        assert(rows_view(rows@) =~= Seq::<RowView>::empty());
        self.push_player_rows(&mut rows, pads, 0);
        if self.max_players >= 2 {
            self.push_player_rows(&mut rows, pads, 1);
        }
        let ghost players = rows_view(rows@);
        rows.push(
            plain(
                joined("MUSIC: ", decimal(self.settings.music_volume as u128).as_str()),
                MenuAction::AdjustVolume(VolumeChannel::Music),
            ),
        );
        rows.push(
            plain(
                joined("EFFECTS: ", decimal(self.settings.sfx_volume as u128).as_str()),
                MenuAction::AdjustVolume(VolumeChannel::Sfx),
            ),
        );
        rows.push(plain(String::from_str("BACK"), MenuAction::Back));
        assert(rows_view(rows@) =~= self.spec_settings_rows(pads));
        rows
    }

    /// Rows of the menu that is up, rebuilt on demand so the labels always
    /// show live state: the chosen scheme, the colour's name, whether a pad is
    /// plugged in.
    pub fn menu_rows(&self, pads_connected: [bool; MAX_PLAYERS], between_waves: bool) -> (rows: Vec<MenuRow>)
        requires
            self.wf(),
        ensures
            rows_view(rows@) == self.spec_rows(pads_connected, between_waves),
    {
        reveal(Flow::spec_rows);
        match self.state {
            State::Paused => Self::pause_rows(between_waves),
            State::ConfirmAbandon => Self::confirm_rows(),
            State::DevMenu => self.dev_rows(),
            State::Settings => self.settings_rows(pads_connected),
            _ => self.title_rows(),
        }
    }
}

impl Flow {
    fn current_menu_mut(&mut self) -> (m: &mut Menu)
        ensures
            *m == old(self).current_menu(),
            *final(self) == old(self).with_current_menu(*final(m)),
    {
        match self.state {
            State::Settings => &mut self.settings_menu,
            State::DevMenu => &mut self.dev_menu,
            State::Paused => &mut self.pause_menu,
            State::ConfirmAbandon => &mut self.confirm_menu,
            _ => &mut self.title_menu,
        }
    }

    fn current_index(&self) -> (i: usize)
        ensures
            i == self.current_menu().index,
    {
        match self.state {
            State::Settings => self.settings_menu.index,
            State::DevMenu => self.dev_menu.index,
            State::Paused => self.pause_menu.index,
            State::ConfirmAbandon => self.confirm_menu.index,
            _ => self.title_menu.index,
        }
    }

    fn menu_move(&mut self, delta: i32, between_waves: bool)
        requires
            old(self).wf(),
        ensures
            *final(self) == old(self).spec_moved(delta as int, between_waves),
            final(self).wf(),
    {
        let count = self.menu_rows([false, false], between_waves).len();
        self.current_menu_mut().move_by(delta, count);
    }

    fn selected_action(&self, between_waves: bool) -> (a: Option<MenuAction>)
        requires
            self.wf(),
        ensures
            a == self.spec_selected(between_waves),
    {
        let rows = self.menu_rows([false, false], between_waves);
        let i = self.current_index();
        if i < rows.len() {
            assert(rows_view(rows@)[i as int] == rows@[i as int]@);
            Some(rows[i].action)
        } else {
            None
        }
    }
}

/// A player row on the settings screen only ever names a seated player.
proof fn lemma_selected_player_is_seated(f: Flow, between_waves: bool)
    requires
        f.wf(),
    ensures
        f.spec_selected(between_waves) matches Some(MenuAction::AdjustScheme(i)) ==> i < f.max_players,
        f.spec_selected(between_waves) matches Some(MenuAction::AdjustColor(i)) ==> i < f.max_players,
{
    reveal(Flow::spec_rows);
    let rows = f.spec_rows([false, false], between_waves);
    let i = f.current_menu().index;
    if f.state == State::Settings && i < rows.len() {
        let p0 = f.player_rows([false, false], 0);
        let p1 = f.player_rows([false, false], 1);
        if f.max_players >= 2 {
            assert(rows =~= p0 + p1 + rows.subrange(4, rows.len() as int));
        } else {
            assert(rows =~= p0 + rows.subrange(2, rows.len() as int));
        }
    }
}

impl Flow {
    fn menu_adjust(&mut self, dir: i32, between_waves: bool)
        requires
            old(self).wf(),
            dir == 1 || dir == -1,
        ensures
            *final(self) == old(self).spec_adjusted(dir as int, between_waves),
            final(self).wf(),
    {
        reveal(Flow::spec_adjusted);
        proof {
            lemma_selected_player_is_seated(*self, between_waves);
        }
        let count = self.schemes.len();
        match self.selected_action(between_waves) {
            Some(MenuAction::AdjustScheme(i)) => self.settings.cycle(i, true, dir, count),
            Some(MenuAction::AdjustColor(i)) => self.settings.cycle(i, false, dir, count),
            Some(MenuAction::AdjustVolume(ch)) => self.settings.adjust_volume(ch, dir),
            Some(MenuAction::AdjustDevWave) => self.dev.adjust_wave(dir),
            Some(MenuAction::AdjustDevScore) => self.dev.adjust_score(dir),
            Some(MenuAction::AdjustDevKind) => self.dev.cycle_kind(dir),
            Some(MenuAction::AdjustDevRule) => self.dev.cycle_rule(dir),
            Some(MenuAction::AdjustDevPlayers) => self.dev.adjust_players(dir, self.max_players),
            _ => {},
        }
    }
}

impl Flow {
    /// Opens the pause menu over a running game, or closes it again. Any other
    /// screen ignores it.
    pub fn toggle_pause(&mut self)
        ensures
            *final(self) == old(self).spec_toggled_pause(),
    {
        match self.state {
            State::Playing => {
                self.pause_menu.index = 0;
                self.state = State::Paused;
            },
            State::Paused => {
                self.state = State::Playing;
            },
            _ => {},
        }
    }

    fn to_title(&mut self)
        ensures
            *final(self) == old(self).spec_to_title(),
    {
        self.state = State::Title;
        self.title_menu.index = 0;
    }

    fn to_pause_menu(&mut self)
        ensures
            *final(self) == old(self).spec_to_pause_menu(),
    {
        self.state = State::Paused;
        self.pause_menu.index = 0;
    }

    /// Opens the developer menu with the cursor on its first row.
    fn open_dev_menu(&mut self)
        ensures
            *final(self) == old(self).spec_opened_dev_menu(),
    {
        self.state = State::DevMenu;
        self.dev_menu.index = 0;
    }

    /// Starts an ordinary run; returns how many players it seats, which is
    /// what was asked for within what the platform allows.
    pub fn start_run(&mut self, player_count: usize) -> (count: usize)
        requires
            old(self).wf(),
        ensures
            count == clamp_players(player_count, old(self).max_players),
            *final(self) == (Flow { state: State::Playing, ..*old(self) }),
    {
        self.state = State::Playing;
        if player_count < 1 {
            1
        } else if player_count > self.max_players {
            self.max_players
        } else {
            player_count
        }
    }

    /// Starts a run on the developer menu's parameters; returns how many
    /// players it seats and the wave it opens on, never below the first.
    pub fn start_dev_run(&mut self) -> (run: (usize, i64))
        requires
            old(self).wf(),
        ensures
            run.0 == clamp_players(old(self).dev.players, old(self).max_players),
            run.1 == (if old(self).dev.wave < 1 { 1 } else { old(self).dev.wave }),
            *final(self) == (Flow { state: State::Playing, ..*old(self) }),
    {
        let count = self.start_run(self.dev.players);
        let wave = if self.dev.wave < 1 { 1 } else { self.dev.wave };
        (count, wave)
    }

    /// The run ended: the result goes up and holds for a moment, and a team
    /// score above the record for this many players becomes the record.
    pub fn end_run(&mut self, standing: Standing)
        requires
            old(self).wf(),
        ensures
            *final(self) == old(self).spec_ended(standing),
            final(self).wf(),
    {
        let result = RunResult::close(&mut self.settings, standing.score, standing.wave, standing.players);
        self.result = Some(result);
        self.result_ticks = GAME_OVER_TICKS;
        self.state = State::GameOver;
    }

    /// Leaves the result screen for the title.
    fn finish_game_over(&mut self)
        ensures
            *final(self) == old(self).spec_finished(),
    {
        self.result = None;
        self.to_title();
    }

    /// True once the result screen will take a key; frontends show their
    /// prompt exactly while this holds.
    pub fn awaiting_dismiss(&self) -> (b: bool)
        ensures
            b == (self.state == State::GameOver && self.result_ticks <= 0),
    {
        self.state == State::GameOver && self.result_ticks <= 0
    }

    fn menu_confirm(&mut self, standing: Standing) -> (c: Command)
        requires
            old(self).wf(),
        ensures
            (*final(self), c) == old(self).spec_confirmed(standing),
            final(self).wf(),
    {
        reveal(Flow::spec_confirmed);
        let b = standing.between_waves;
        match self.selected_action(b) {
            Some(MenuAction::StartRun(n)) => {
                let count = self.start_run(n);
                Command::StartRun(count)
            },
            Some(MenuAction::OpenSettings) => {
                self.state = State::Settings;
                self.settings_menu.index = 0;
                Command::Nothing
            },
            Some(MenuAction::Back) => {
                self.to_title();
                Command::Nothing
            },
            Some(MenuAction::StartDevRun) => {
                let (players, wave) = self.start_dev_run();
                Command::StartDevRun { players, wave }
            },
            Some(MenuAction::Quit) => {
                self.quit_requested = true;
                Command::Nothing
            },
            Some(MenuAction::Resume) => {
                self.toggle_pause();
                Command::Nothing
            },
            Some(MenuAction::StartWave) => {
                // Straight back into it: nobody asks for the wave and then
                // wants to keep looking at the menu.
                self.toggle_pause();
                Command::StartWave
            },
            Some(MenuAction::AskAbandon) => {
                self.state = State::ConfirmAbandon;
                self.confirm_menu.index = 0;
                Command::Nothing
            },
            Some(MenuAction::KeepPlaying) => {
                self.to_pause_menu();
                Command::Nothing
            },
            Some(MenuAction::AbandonRun) => {
                self.end_run(standing);
                self.finish_game_over();
                Command::NewRun(standing.players)
            },
            Some(_) => {
                self.menu_adjust(1, b);
                Command::Nothing
            },
            None => Command::Nothing,
        }
    }

    fn handle_menu_input(&mut self, m: MenuIntent, standing: Standing) -> (c: Command)
        requires
            old(self).wf(),
        ensures
            (*final(self), c) == old(self).spec_handled(m, standing),
            final(self).wf(),
    {
        let b = standing.between_waves;
        if m.up {
            self.menu_move(-1, b);
        }
        if m.down {
            self.menu_move(1, b);
        }
        if m.left {
            self.menu_adjust(-1, b);
        }
        if m.right {
            self.menu_adjust(1, b);
        }
        let c = if m.confirm {
            self.menu_confirm(standing)
        } else {
            Command::Nothing
        };
        if m.back {
            match self.state {
                State::Settings => self.to_title(),
                State::ConfirmAbandon => self.to_pause_menu(),
                _ => {},
            }
        }
        c
    }

    /// One tick of the screens: takes this frame's input and where the run
    /// stands, and says what the field, the sky and the run should do.
    pub fn tick(&mut self, input: &InputFrame, standing: Standing) -> (step: Step)
        requires
            old(self).wf(),
        ensures
            (*final(self), step) == old(self).spec_tick(*input, standing),
            final(self).wf(),
    {
        // Arriving at the title is spotted here rather than at each road that
        // leads there, so no road can forget.
        let arrived = self.state == State::Title && self.last_state != State::Title;
        let in_menu = self.state == State::Title || self.state == State::Settings || self.state == State::DevMenu;
        let was_in_menu = self.last_state == State::Title || self.last_state == State::Settings
            || self.last_state == State::DevMenu;
        let sky = if in_menu {
            Sky::Menu
        } else if was_in_menu {
            Sky::Restore
        } else {
            Sky::Keep
        };
        self.last_state = self.state;
        match self.state {
            State::Title | State::Settings | State::DevMenu => {
                // A chord from the title, and only from the title.
                if input.dev_menu && self.state == State::Title {
                    self.open_dev_menu();
                }
                let command = self.handle_menu_input(input.menu, standing);
                Step { arrived_at_title: arrived, sky, command, work: Work::Drift }
            },
            State::Paused => {
                let command = if input.pause {
                    self.toggle_pause();
                    Command::Nothing
                } else {
                    self.handle_menu_input(input.menu, standing)
                };
                Step { arrived_at_title: arrived, sky, command, work: Work::Present }
            },
            State::ConfirmAbandon => {
                // Start does not unpause from here; the question has to be
                // answered, or backed out of.
                let command = self.handle_menu_input(input.menu, standing);
                Step { arrived_at_title: arrived, sky, command, work: Work::Present }
            },
            State::GameOver => {
                // Input is refused until the hold expires, so a button held at
                // the moment of death cannot skip the result.
                let command = if self.result_ticks > 0 {
                    self.result_ticks = self.result_ticks - 1;
                    Command::Nothing
                } else if input.menu.confirm || input.menu.back {
                    self.finish_game_over();
                    Command::NewRun(standing.players)
                } else {
                    Command::Nothing
                };
                Step { arrived_at_title: arrived, sky, command, work: Work::Hold }
            },
            State::Playing => {
                if input.pause {
                    self.toggle_pause();
                    Step { arrived_at_title: arrived, sky, command: Command::Nothing, work: Work::Hold }
                } else {
                    Step { arrived_at_title: arrived, sky, command: Command::Nothing, work: Work::Simulate }
                }
            },
        }
    }
}

/* ---------------- laws of the screens ---------------- */

/// The two players can be told apart: never one colour, and never one scheme
/// where the platform offers more than one.
pub open spec fn players_apart(f: Flow) -> bool {
    &&& f.settings.players[0].color_index != f.settings.players[1].color_index
    &&& f.schemes@.len() > 1 ==> f.settings.players[0].scheme != f.settings.players[1].scheme
}

proof fn lemma_cycle_keeps_apart(f: Flow, player: usize, is_scheme: bool, dir: int)
    requires
        f.wf(),
        players_apart(f),
        player < f.max_players,
        dir == 1 || dir == -1,
    ensures
        ({
            let g = Flow { settings: spec_cycle(f.settings, player, is_scheme, dir, f.schemes.len()), ..f };
            g.wf() && players_apart(g)
        }),
{
    let len = crate::settings::cycle_len(is_scheme, f.schemes.len());
    if len > 1 {
        let taken = crate::settings::player_value(f.settings, crate::settings::other_player(player), is_scheme);
        let start = crate::settings::player_value(f.settings, player as int, is_scheme);
        crate::settings::lemma_cycle_avoids_the_other_player(start, dir, len, taken);
    }
}

proof fn lemma_adjusted_keeps(f: Flow, dir: int, between_waves: bool)
    requires
        f.wf(),
        players_apart(f),
        dir == 1 || dir == -1,
    ensures
        f.spec_adjusted(dir, between_waves).wf(),
        players_apart(f.spec_adjusted(dir, between_waves)),
{
    reveal(Flow::spec_adjusted);
    lemma_selected_player_is_seated(f, between_waves);
    match f.spec_selected(between_waves) {
        Some(MenuAction::AdjustScheme(i)) => lemma_cycle_keeps_apart(f, i, true, dir),
        Some(MenuAction::AdjustColor(i)) => lemma_cycle_keeps_apart(f, i, false, dir),
        _ => {},
    }
}

proof fn lemma_confirmed_keeps(f: Flow, standing: Standing)
    requires
        f.wf(),
        players_apart(f),
    ensures
        f.spec_confirmed(standing).0.wf(),
        players_apart(f.spec_confirmed(standing).0),
{
    reveal(Flow::spec_confirmed);
    lemma_adjusted_keeps(f, 1, standing.between_waves);
}

proof fn lemma_handled_keeps(f: Flow, m: MenuIntent, standing: Standing)
    requires
        f.wf(),
        players_apart(f),
    ensures
        f.spec_handled(m, standing).0.wf(),
        players_apart(f.spec_handled(m, standing).0),
{
    let b = standing.between_waves;
    let f1 = if m.up { f.spec_moved(-1, b) } else { f };
    let f2 = if m.down { f1.spec_moved(1, b) } else { f1 };
    lemma_adjusted_keeps(f2, -1, b);
    let f3 = if m.left { f2.spec_adjusted(-1, b) } else { f2 };
    lemma_adjusted_keeps(f3, 1, b);
    let f4 = if m.right { f3.spec_adjusted(1, b) } else { f3 };
    lemma_confirmed_keeps(f4, standing);
}


/// Adjusting a row touches the settings or the developer setup, and nothing
/// else.
proof fn lemma_adjusted_touches_values_only(f: Flow, dir: int, between_waves: bool)
    ensures
        f.spec_adjusted(dir, between_waves) == (Flow {
            settings: f.spec_adjusted(dir, between_waves).settings,
            dev: f.spec_adjusted(dir, between_waves).dev,
            ..f
        }),
{
    reveal(Flow::spec_adjusted);
}

proof fn lemma_confirmed_outcomes(f: Flow, standing: Standing)
    ensures
        f.spec_confirmed(standing).0.state == State::DevMenu ==> f.state == State::DevMenu,
        f.state == State::Paused ==> {
            let (g, c) = f.spec_confirmed(standing);
            &&& g.state == State::Playing || g.state == State::ConfirmAbandon || g.state == State::Paused
            &&& c == Command::Nothing || c == Command::StartWave
        },
        f.state == State::ConfirmAbandon && f.confirm_menu.index == 0 ==> f.spec_confirmed(standing) == (
            f.spec_to_pause_menu(),
            Command::Nothing,
        ),
{
    reveal(Flow::spec_confirmed);
    reveal(Flow::spec_rows);
    lemma_adjusted_touches_values_only(f, 1, standing.between_waves);
}

/// The state after one frame of menu input, step by step.
proof fn lemma_handled_states(f: Flow, m: MenuIntent, standing: Standing)
    ensures
        f.spec_handled(m, standing).0.state == State::DevMenu ==> f.state == State::DevMenu,
        f.state == State::Paused ==> {
            let (g, c) = f.spec_handled(m, standing);
            &&& g.state != State::Title
            &&& c == Command::Nothing || c == Command::StartWave
        },
{
    let b = standing.between_waves;
    let f1 = if m.up { f.spec_moved(-1, b) } else { f };
    let f2 = if m.down { f1.spec_moved(1, b) } else { f1 };
    lemma_adjusted_touches_values_only(f2, -1, b);
    let f3 = if m.left { f2.spec_adjusted(-1, b) } else { f2 };
    lemma_adjusted_touches_values_only(f3, 1, b);
    let f4 = if m.right { f3.spec_adjusted(1, b) } else { f3 };
    assert(f4.state == f.state);
    lemma_confirmed_outcomes(f4, standing);
}

/// Nothing on any screen can leave the two players on one colour, or on one
/// scheme where there is a choice: the screens keep them apart tick after
/// tick.
pub proof fn lemma_tick_keeps_players_apart(f: Flow, input: InputFrame, standing: Standing)
    requires
        f.wf(),
        players_apart(f),
    ensures
        f.spec_tick(input, standing).0.wf(),
        players_apart(f.spec_tick(input, standing).0),
{
    let f0 = Flow { last_state: f.state, ..f };
    lemma_handled_keeps(f0, input.menu, standing);
    lemma_handled_keeps(f0.spec_opened_dev_menu(), input.menu, standing);
}

/// The developer menu opens from the title and from nowhere else: no tick on
/// any other screen lands there.
pub proof fn lemma_dev_menu_only_from_title(f: Flow, input: InputFrame, standing: Standing)
    requires
        f.wf(),
    ensures
        f.spec_tick(input, standing).0.state == State::DevMenu ==> f.state == State::Title || f.state
            == State::DevMenu,
{
    let f0 = Flow { last_state: f.state, ..f };
    lemma_handled_states(f0, input.menu, standing);
}

/// Leaving a run from the pause menu always asks first: no single tick takes
/// a paused run back to the title.
pub proof fn lemma_leaving_from_pause_asks_first(f: Flow, input: InputFrame, standing: Standing)
    requires
        f.wf(),
        f.state == State::Paused,
    ensures
        f.spec_tick(input, standing).0.state != State::Title,
        f.spec_tick(input, standing).1.command != Command::NewRun(standing.players),
{
    let f0 = Flow { last_state: f.state, ..f };
    lemma_handled_states(f0, input.menu, standing);
}

/// Backing out of the question is the same as answering "no".
pub proof fn lemma_backing_out_is_answering_no(f: Flow, standing: Standing)
    requires
        f.wf(),
        f.state == State::ConfirmAbandon,
        f.confirm_menu.index == 0,
    ensures
        f.spec_backed() == f.spec_confirmed(standing).0,
        f.spec_confirmed(standing).1 == Command::Nothing,
{
    lemma_confirmed_outcomes(f, standing);
}

/// Pausing and resuming hands back the very run that was paused, with only
/// the pause menu's cursor sent home.
pub proof fn lemma_pause_then_resume(f: Flow)
    requires
        f.state == State::Playing,
    ensures
        f.spec_toggled_pause().spec_toggled_pause() == (Flow { pause_menu: Menu { index: 0, ..f.pause_menu }, ..f }),
{
}

/// The result screen refuses every input while its hold lasts: whatever is
/// pressed, the screen stays up, one tick of the hold is spent, and nothing
/// else changes.
pub proof fn lemma_result_holds(f: Flow, input: InputFrame, standing: Standing)
    requires
        f.state == State::GameOver,
        f.result_ticks > 0,
    ensures
        f.spec_tick(input, standing).0 == (Flow { result_ticks: (f.result_ticks - 1) as i32, last_state: State::GameOver, ..f }),
        f.spec_tick(input, standing).1.command == Command::Nothing,
        f.spec_tick(input, standing).1.work == Work::Hold,
{
}

} // verus!

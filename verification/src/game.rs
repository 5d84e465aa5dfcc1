//! Where a run stands, and the bookkeeping that closes one.
//!
//! The simulation itself moves bodies through a screen measured in fractions
//! and lives with the frontend. What it hands back here are whole numbers: the
//! screen it is on, the team's score, the clock.
use vstd::prelude::*;

use crate::audio::{MusicState, Situation};
use crate::config::COMBO_WINDOW_TICKS;
use crate::settings::{spec_record, spec_set_record, Settings};

verus! {

#[derive(Clone, Copy, Debug, PartialEq, Eq, Structural)]
pub enum State {
    Title,
    Settings,
    /// Starting parameters for a run, reached by a chord from the title.
    DevMenu,
    Playing,
    Paused,
    /// "Are you sure?" over the paused game. Its own state rather than a flag,
    /// so the renderer and the input both know exactly what is on screen.
    ConfirmAbandon,
    /// The run has ended and the result is on screen. Nothing simulates and no
    /// input is taken, so a death cannot be skipped past by a held button.
    GameOver,
}

/// What the run came to, kept for the result screen after the run itself has
/// been torn down.
#[derive(Clone, Copy, Debug, PartialEq, Eq, Structural)]
pub struct RunResult {
    pub score: i64,
    pub wave: i64,
    pub players: usize,
    pub is_record: bool,
}

/// The settings after a run of `players` closed on `team_score`: a score
/// above the standing record replaces it.
pub open spec fn spec_closed_settings(s: Settings, team_score: i64, players: usize) -> Settings {
    if team_score > spec_record(s, players) {
        spec_set_record(s, players, team_score)
    } else {
        s
    }
}

impl RunResult {
    /// Closes a run: a team score above the standing record for this many
    /// players replaces it, and the result remembers whether it did.
    pub fn close(settings: &mut Settings, team_score: i64, wave: i64, players: usize) -> (r: RunResult)
        ensures
            r.score == team_score,
            r.wave == wave,
            r.players == players,
            r.is_record == (team_score > spec_record(*old(settings), players)),
            *final(settings) == spec_closed_settings(*old(settings), team_score, players),
            r.is_record ==> spec_record(*final(settings), players) == team_score && final(settings).dirty,
            !r.is_record ==> *final(settings) == *old(settings),
            final(settings).players == old(settings).players,
            final(settings).music_volume == old(settings).music_volume,
            final(settings).sfx_volume == old(settings).sfx_volume,
            final(settings).launches == old(settings).launches,
            // A record never goes down.
            spec_record(*final(settings), players) >= spec_record(*old(settings), players),
    {
        let is_record = team_score > settings.record(players);
        if is_record {
            settings.set_record(players, team_score);
        }
        RunResult { score: team_score, wave, players, is_record }
    }
}

/// Which theme belongs to a moment of the game: paused is paused, a running
/// wave is combat, and everything else - menus, the lull before a wave, the
/// result screen - is calm.
pub open spec fn spec_situation(state: State, countdown: i32) -> Situation {
    match state {
        State::Paused => Situation::Paused,
        State::Playing => if countdown < 0 {
            Situation::Combat
        } else {
            Situation::Calm
        },
        _ => Situation::Calm,
    }
}

pub fn situation_for(state: State, countdown: i32) -> (s: Situation)
    ensures
        s == spec_situation(state, countdown),
{
    match state {
        State::Paused => Situation::Paused,
        // A wave that has not started yet is still a lull.
        State::Playing => if countdown < 0 {
            Situation::Combat
        } else {
            Situation::Calm
        },
        _ => Situation::Calm,
    }
}

/// What the music should be doing: the theme for this moment, and how many
/// enemies are up and whether a boss is among them - none of it while the
/// result screen is up, where frozen enemies are scenery rather than a threat.
pub open spec fn spec_music_state(state: State, countdown: i32, zombies: usize, flyers: usize, boss: bool) -> MusicState {
    let over = state == State::GameOver;
    MusicState {
        situation: spec_situation(state, countdown),
        zombies: if over { 0 } else { zombies },
        flyers: if over { 0 } else { flyers },
        boss: !over && boss,
    }
}

pub fn music_state(state: State, countdown: i32, zombies: usize, flyers: usize, boss: bool) -> (m: MusicState)
    ensures
        m == spec_music_state(state, countdown, zombies, flyers, boss),
{
    let over = state == State::GameOver;
    MusicState {
        situation: situation_for(state, countdown),
        zombies: if over { 0 } else { zombies },
        flyers: if over { 0 } else { flyers },
        boss: !over && boss,
    }
}

/// The combo after a swing starts at `timer`: a swing long after the last one
/// (or after a finished combo) starts a new combo, within the window a second
/// and third swing continue it, and the third closes it.
pub open spec fn spec_next_combo(combo: u32, combo_timestamp: i64, timer: i64) -> (u32, i64) {
    if combo == 0 || timer - combo_timestamp > COMBO_WINDOW_TICKS {
        (1, timer)
    } else if combo < 2 {
        ((combo + 1) as u32, combo_timestamp)
    } else {
        (0, combo_timestamp)
    }
}

pub fn next_combo(combo: u32, combo_timestamp: i64, timer: i64) -> (r: (u32, i64))
    ensures
        r == spec_next_combo(combo, combo_timestamp, timer),
        r.0 <= 2,
{
    if combo == 0 || (timer as i128 - combo_timestamp as i128) > COMBO_WINDOW_TICKS as i128 {
        (1, timer)
    } else if combo < 2 {
        (combo + 1, combo_timestamp)
    } else {
        (0, combo_timestamp)
    }
}

/// The combo window: a swing after the window has closed always opens a new
/// combo stamped now, whatever the count stood at; so does the first swing.
/// Inside the window the count climbs from one to two, keeping the stamp of
/// the swing that opened it, and the third swing closes it.
pub proof fn lemma_stale_combos_start_over(combo: u32, combo_timestamp: i64, timer: i64)
    ensures
        timer - combo_timestamp > COMBO_WINDOW_TICKS ==> spec_next_combo(combo, combo_timestamp, timer) == (
            1u32,
            timer,
        ),
        combo == 0 ==> spec_next_combo(combo, combo_timestamp, timer) == (1u32, timer),
        combo == 1 && timer - combo_timestamp <= COMBO_WINDOW_TICKS ==> spec_next_combo(
            combo,
            combo_timestamp,
            timer,
        ) == (2u32, combo_timestamp),
        combo >= 2 && timer - combo_timestamp <= COMBO_WINDOW_TICKS ==> spec_next_combo(
            combo,
            combo_timestamp,
            timer,
        ) == (0u32, combo_timestamp),
{
}

} // verus!

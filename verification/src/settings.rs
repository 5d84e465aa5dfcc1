//! Player choices and high scores, as plain data.
//!
//! Deliberately no file access: a desktop writes JSON to a config directory, a
//! handheld writes bytes to a memory card. The core only tracks the values and
//! raises [`Settings::dirty`] when a frontend should persist them.
use vstd::prelude::*;

use crate::config::{MAX_PLAYERS, PLAYER_COLOR_COUNT};
use crate::menu::wrap;

verus! {

/// One control scheme a platform offers. Supplied by the frontend, because the
/// list differs per platform.
#[derive(Clone, Copy, Debug)]
pub struct SchemeInfo {
    pub label: &'static str,
    pub is_gamepad: bool,
    /// Which physical pad a gamepad scheme reads.
    pub pad_index: usize,
}

#[derive(Clone, Copy, Debug, PartialEq, Eq, Structural)]
pub struct PlayerConfig {
    pub scheme: usize,
    pub color_index: usize,
}

#[derive(Clone, Copy, Debug, PartialEq, Eq)]
pub struct Settings {
    pub players: [PlayerConfig; MAX_PLAYERS],
    pub record_solo: i64,
    pub record_duo: i64,
    /// 0..=100 in steps of 10. Kept as a percentage rather than a gain so the
    /// menu, the save file and the mixer never disagree about what "50" means.
    pub music_volume: u32,
    pub sfx_volume: u32,
    /// How many times this install has been started. Only there to seed the
    /// random number generator on platforms whose clock does not move between
    /// launches.
    pub launches: u64,
    /// Set whenever something changed; the frontend clears it after saving.
    pub dirty: bool,
}

/// Which of the two volume rows is being adjusted.
#[derive(Clone, Copy, Debug, PartialEq, Eq, Structural)]
pub enum VolumeChannel {
    Music,
    Sfx,
}

pub const VOLUME_STEP: u32 = 10;
pub const VOLUME_MAX: u32 = 100;

/// What a save file that never mentioned a volume means: full, which is what
/// the player was hearing before the setting existed.
pub fn full_volume() -> (v: u32)
    ensures
        v == VOLUME_MAX,
{
    VOLUME_MAX
}

/// The settings a first run starts with.
pub open spec fn default_settings() -> Settings {
    Settings {
        players: [
            PlayerConfig { scheme: 0, color_index: 0 },
            PlayerConfig { scheme: 1, color_index: 1 },
        ],
        record_solo: 0,
        record_duo: 0,
        music_volume: VOLUME_MAX,
        sfx_volume: VOLUME_MAX,
        launches: 0,
        dirty: false,
    }
}

/// A stored volume moved onto the nearest notch the menu can produce.
pub open spec fn snapped_volume(v: u32) -> u32 {
    let capped = if v > VOLUME_MAX { VOLUME_MAX } else { v };
    let snapped = ((capped + VOLUME_STEP / 2) / VOLUME_STEP as int) * VOLUME_STEP;
    (if snapped > VOLUME_MAX { VOLUME_MAX as int } else { snapped }) as u32
}

/// A player's scheme after sanitising against `count` schemes, before the two
/// players are told apart.
pub open spec fn scheme_in_range(scheme: usize, default: usize, count: usize) -> usize {
    if scheme >= count {
        if default < count { default } else { (count - 1) as usize }
    } else {
        scheme
    }
}

pub open spec fn color_in_range(color: usize, default: usize) -> usize {
    if color >= PLAYER_COLOR_COUNT {
        default
    } else {
        color
    }
}

pub open spec fn spec_volume(s: Settings, channel: VolumeChannel) -> u32 {
    match channel {
        VolumeChannel::Music => s.music_volume,
        VolumeChannel::Sfx => s.sfx_volume,
    }
}

/// One notch of a volume row, clamped to 0..=100.
pub open spec fn stepped_volume(current: u32, dir: int) -> int {
    let raw = current + dir * VOLUME_STEP;
    if raw < 0 {
        0
    } else if raw > VOLUME_MAX {
        VOLUME_MAX as int
    } else {
        raw
    }
}

pub open spec fn spec_record(s: Settings, player_count: usize) -> i64 {
    if player_count >= 2 {
        s.record_duo
    } else {
        s.record_solo
    }
}

/// How many choices a scheme or colour row cycles through.
pub open spec fn cycle_len(is_scheme: bool, scheme_count: usize) -> int {
    if is_scheme {
        if scheme_count < 1 { 1 } else { scheme_count as int }
    } else {
        PLAYER_COLOR_COUNT as int
    }
}

/// Stepping from `index` by `dir` through `len` entries, skipping `taken`;
/// gives up after `fuel` steps, on wherever the last step landed.
pub open spec fn cycled(index: int, dir: int, len: int, taken: int, fuel: nat) -> int
    decreases fuel,
{
    let next = (index + dir) % len;
    if fuel == 0 {
        index
    } else if next != taken || fuel == 1 {
        next
    } else {
        cycled(next, dir, len, taken, (fuel - 1) as nat)
    }
}

pub open spec fn other_player(player_index: usize) -> int {
    if player_index == 0 {
        1
    } else {
        0
    }
}

pub open spec fn player_value(s: Settings, player_index: int, is_scheme: bool) -> int {
    if is_scheme {
        s.players[player_index].scheme as int
    } else {
        s.players[player_index].color_index as int
    }
}

/// The settings after one step of a player's scheme or colour row: the player
/// lands on the next entry the other player does not hold, and the change is
/// flagged for saving. A row with a single entry does not move.
pub open spec fn spec_cycle(s: Settings, player_index: usize, is_scheme: bool, dir: int, scheme_count: usize) -> Settings {
    let len = cycle_len(is_scheme, scheme_count);
    if len <= 1 {
        s
    } else {
        let taken = player_value(s, other_player(player_index), is_scheme);
        let start = player_value(s, player_index as int, is_scheme);
        let v = cycled(start, dir, len, taken, len as nat);
        let p = s.players[player_index as int];
        let np = if is_scheme {
            PlayerConfig { scheme: v as usize, ..p }
        } else {
            PlayerConfig { color_index: v as usize, ..p }
        };
        Settings {
            players: if player_index == 0 { [np, s.players[1]] } else { [s.players[0], np] },
            dirty: true,
            ..s
        }
    }
}

/// The settings after one notch of a volume row.
pub open spec fn spec_adjust_volume(s: Settings, channel: VolumeChannel, dir: int) -> Settings {
    let stepped = stepped_volume(spec_volume(s, channel), dir);
    if stepped == spec_volume(s, channel) {
        s
    } else {
        match channel {
            VolumeChannel::Music => Settings { music_volume: stepped as u32, dirty: true, ..s },
            VolumeChannel::Sfx => Settings { sfx_volume: stepped as u32, dirty: true, ..s },
        }
    }
}

/// The settings with a new best score for this many players, flagged for
/// saving.
pub open spec fn spec_set_record(s: Settings, player_count: usize, value: i64) -> Settings {
    if player_count >= 2 {
        Settings { record_duo: value, dirty: true, ..s }
    } else {
        Settings { record_solo: value, dirty: true, ..s }
    }
}

/// What a stored settings value looks like once it has been made safe for a
/// platform offering `scheme_count` schemes.
pub open spec fn spec_sanitize(o: Settings, scheme_count: usize) -> Settings {
    let count: usize = if scheme_count < 1 { 1 } else { scheme_count };
    let s0 = scheme_in_range(o.players[0].scheme, 0, count);
    let s1 = scheme_in_range(o.players[1].scheme, 1, count);
    let c0 = color_in_range(o.players[0].color_index, 0);
    let c1 = color_in_range(o.players[1].color_index, 1);
    let c1b = if c0 == c1 { ((c0 + 1) % PLAYER_COLOR_COUNT as int) as usize } else { c1 };
    let s1b = if count > 1 && s0 == s1 { ((s0 + 1) % count as int) as usize } else { s1 };
    Settings {
        players: [PlayerConfig { scheme: s0, color_index: c0 }, PlayerConfig { scheme: s1b, color_index: c1b }],
        record_solo: if o.record_solo < 0 { 0 } else { o.record_solo },
        record_duo: if o.record_duo < 0 { 0 } else { o.record_duo },
        music_volume: snapped_volume(o.music_volume),
        sfx_volume: snapped_volume(o.sfx_volume),
        ..o
    }
}

impl Default for Settings {
    fn default() -> (s: Self)
        ensures
            s == default_settings(),
    {
        Self {
            players: [
                PlayerConfig { scheme: 0, color_index: 0 },
                PlayerConfig { scheme: 1, color_index: 1 },
            ],
            record_solo: 0,
            record_duo: 0,
            music_volume: VOLUME_MAX,
            sfx_volume: VOLUME_MAX,
            launches: 0,
            dirty: false,
        }
    }
}

fn snap_volume(v: u32) -> (r: u32)
    ensures
        r == snapped_volume(v),
{
    let capped = if v > VOLUME_MAX { VOLUME_MAX } else { v };
    let snapped = ((capped + VOLUME_STEP / 2) / VOLUME_STEP) * VOLUME_STEP;
    if snapped > VOLUME_MAX { VOLUME_MAX } else { snapped }
}

impl Settings {
    /// Clamps anything a stale or hand-edited save file might contain, so bad
    /// input can never crash startup. `scheme_count` is however many schemes
    /// this platform actually offers.
    ///
    /// Out-of-range schemes and colours fall back to the defaults, the two
    /// players never share a colour, nor a scheme where the platform has an
    /// alternative, records are never negative and volumes sit on a notch of
    /// the menu. The launch counter and the dirty flag are left alone.
    pub fn sanitize(&mut self, scheme_count: usize)
        ensures
            *final(self) == spec_sanitize(*old(self), scheme_count),
            ({
                let count: usize = if scheme_count < 1 { 1 } else { scheme_count };
                let o = *old(self);
                let s0 = scheme_in_range(o.players[0].scheme, 0, count);
                let s1 = scheme_in_range(o.players[1].scheme, 1, count);
                let c0 = color_in_range(o.players[0].color_index, 0);
                let c1 = color_in_range(o.players[1].color_index, 1);
                &&& final(self).players[0].scheme == s0
                &&& final(self).players[0].color_index == c0
                &&& final(self).players[1].color_index == (if c0 == c1 {
                    (c0 + 1) % PLAYER_COLOR_COUNT as int
                } else {
                    c1 as int
                })
                &&& final(self).players[1].scheme == (if count > 1 && s0 == s1 {
                    (s0 + 1) % count as int
                } else {
                    s1 as int
                })
            }),
            final(self).record_solo == (if old(self).record_solo < 0 { 0 } else { old(self).record_solo }),
            final(self).record_duo == (if old(self).record_duo < 0 { 0 } else { old(self).record_duo }),
            final(self).music_volume == snapped_volume(old(self).music_volume),
            final(self).sfx_volume == snapped_volume(old(self).sfx_volume),
            final(self).launches == old(self).launches,
            final(self).dirty == old(self).dirty,
            // What the clamping guarantees, whatever the file said.
            final(self).players[0].color_index < PLAYER_COLOR_COUNT,
            final(self).players[1].color_index < PLAYER_COLOR_COUNT,
            final(self).players[0].color_index != final(self).players[1].color_index,
            final(self).players[0].scheme < (if scheme_count < 1 { 1 } else { scheme_count }),
            final(self).players[1].scheme < (if scheme_count < 1 { 1 } else { scheme_count }),
            scheme_count > 1 ==> final(self).players[0].scheme != final(self).players[1].scheme,
            final(self).music_volume <= VOLUME_MAX,
            final(self).music_volume % VOLUME_STEP == 0,
            final(self).sfx_volume <= VOLUME_MAX,
            final(self).sfx_volume % VOLUME_STEP == 0,
    {
        let count: usize = if scheme_count < 1 { 1 } else { scheme_count };

        let mut p0 = self.players[0];
        let mut p1 = self.players[1];
        if p0.scheme >= count {
            p0.scheme = 0;
        }
        if p1.scheme >= count {
            p1.scheme = if 1 < count { 1 } else { count - 1 };
        }
        if p0.color_index >= PLAYER_COLOR_COUNT {
            p0.color_index = 0;
        }
        if p1.color_index >= PLAYER_COLOR_COUNT {
            p1.color_index = 1;
        }

        // Sharing a colour would make the two players indistinguishable.
        if p0.color_index == p1.color_index {
            p1.color_index = (p0.color_index + 1) % PLAYER_COLOR_COUNT;
        }
        // Sharing a scheme is only a problem when the platform has alternatives.
        if count > 1 && p0.scheme == p1.scheme {
            p1.scheme = (p0.scheme + 1) % count;
            proof {
                if p0.scheme + 1 < count {
                    vstd::arithmetic::div_mod::lemma_small_mod((p0.scheme + 1) as nat, count as nat);
                } else {
                    vstd::arithmetic::div_mod::lemma_fundamental_div_mod_converse(count as int, count as int, 1, 0);
                }
            }
        }
        self.players = [p0, p1];
        if self.record_solo < 0 {
            self.record_solo = 0;
        }
        if self.record_duo < 0 {
            self.record_duo = 0;
        }

        // Snap to the step, so a hand-edited file cannot leave the menu showing
        // a value its own controls could never produce.
        self.music_volume = snap_volume(self.music_volume);
        self.sfx_volume = snap_volume(self.sfx_volume);
        proof {
            assert(self.players =~= spec_sanitize(*old(self), scheme_count).players);
        }
    }

    pub fn volume(&self, channel: VolumeChannel) -> (v: u32)
        ensures
            v == spec_volume(*self, channel),
    {
        match channel {
            VolumeChannel::Music => self.music_volume,
            VolumeChannel::Sfx => self.sfx_volume,
        }
    }

    /// Steps a volume by one notch. Clamps rather than wrapping: rolling from
    /// full to silence on one keypress is never what anyone wanted. Raises the
    /// dirty flag exactly when the value moved.
    pub fn adjust_volume(&mut self, channel: VolumeChannel, dir: i32)
        ensures
            *final(self) == spec_adjust_volume(*old(self), channel, dir as int),
            ({
                let stepped = stepped_volume(spec_volume(*old(self), channel), dir as int);
                &&& spec_volume(*final(self), channel) == stepped
                &&& stepped == spec_volume(*old(self), channel) ==> *final(self) == *old(self)
                &&& stepped != spec_volume(*old(self), channel) ==> final(self).dirty
            }),
            channel == VolumeChannel::Music ==> final(self).sfx_volume == old(self).sfx_volume,
            channel == VolumeChannel::Sfx ==> final(self).music_volume == old(self).music_volume,
            final(self).players == old(self).players,
            final(self).record_solo == old(self).record_solo,
            final(self).record_duo == old(self).record_duo,
            final(self).launches == old(self).launches,
    {
        let current = self.volume(channel) as i64;
        let step: i64 = dir as i64 * 10;
        assert(-30_000_000_000 < step < 30_000_000_000);
        let raw = current + step;
        let stepped: u32 = if raw < 0 {
            0
        } else if raw > VOLUME_MAX as i64 {
            VOLUME_MAX
        } else {
            raw as u32
        };
        if stepped == self.volume(channel) {
            return;
        }
        match channel {
            VolumeChannel::Music => self.music_volume = stepped,
            VolumeChannel::Sfx => self.sfx_volume = stepped,
        }
        self.dirty = true;
    }

    /// The best team score for a run of this many players.
    pub fn record(&self, player_count: usize) -> (r: i64)
        ensures
            r == spec_record(*self, player_count),
    {
        if player_count >= 2 {
            self.record_duo
        } else {
            self.record_solo
        }
    }

    /// Stores a best team score and asks the frontend to save it.
    pub fn set_record(&mut self, player_count: usize, value: i64)
        ensures
            *final(self) == spec_set_record(*old(self), player_count, value),
            spec_record(*final(self), player_count) == value,
            player_count >= 2 ==> final(self).record_solo == old(self).record_solo,
            player_count < 2 ==> final(self).record_duo == old(self).record_duo,
            final(self).dirty,
            final(self).players == old(self).players,
            final(self).music_volume == old(self).music_volume,
            final(self).sfx_volume == old(self).sfx_volume,
            final(self).launches == old(self).launches,
    {
        if player_count >= 2 {
            self.record_duo = value;
        } else {
            self.record_solo = value;
        }
        self.dirty = true;
    }

    /// Steps a player's scheme or colour, skipping whatever the other player
    /// holds so the two can never collide.
    pub fn cycle(&mut self, player_index: usize, is_scheme: bool, dir: i32, scheme_count: usize)
        requires
            cycle_len(is_scheme, scheme_count) > 1 ==> player_index < MAX_PLAYERS,
        ensures
            *final(self) == spec_cycle(*old(self), player_index, is_scheme, dir as int, scheme_count),
            cycle_len(is_scheme, scheme_count) > 1 ==> 0 <= player_value(*final(self), player_index as int, is_scheme)
                < cycle_len(is_scheme, scheme_count),
            ({
                let len = cycle_len(is_scheme, scheme_count);
                let other = other_player(player_index);
                let taken = player_value(*old(self), other, is_scheme);
                let start = player_value(*old(self), player_index as int, is_scheme);
                &&& len <= 1 ==> *final(self) == *old(self)
                &&& len > 1 ==> player_value(*final(self), player_index as int, is_scheme) == cycled(
                    start,
                    dir as int,
                    len,
                    taken,
                    len as nat,
                )
                &&& len > 1 ==> final(self).dirty
            }),
            final(self).players[other_player(player_index)] == old(self).players[other_player(
                player_index,
            )],
            is_scheme ==> final(self).players[player_index as int].color_index == old(
                self,
            ).players[player_index as int].color_index,
            !is_scheme ==> final(self).players[player_index as int].scheme == old(
                self,
            ).players[player_index as int].scheme,
            final(self).music_volume == old(self).music_volume,
            final(self).sfx_volume == old(self).sfx_volume,
            final(self).record_solo == old(self).record_solo,
            final(self).record_duo == old(self).record_duo,
            final(self).launches == old(self).launches,
    {
        let other: usize = if player_index == 0 { 1 } else { 0 };
        let len: usize = if is_scheme {
            if scheme_count < 1 { 1 } else { scheme_count }
        } else {
            PLAYER_COLOR_COUNT
        };
        if len <= 1 {
            return;
        }
        let taken: usize = if is_scheme {
            self.players[other].scheme
        } else {
            self.players[other].color_index
        };
        let mut index: usize = if is_scheme {
            self.players[player_index].scheme
        } else {
            self.players[player_index].color_index
        };
        let ghost target = cycled(index as int, dir as int, len as int, taken as int, len as nat);
        let mut k: usize = 0;
        while k < len
            invariant_except_break
                0 <= k <= len,
                len > 1,
                k > 0 ==> index < len,
                target == cycled(index as int, dir as int, len as int, taken as int, (len - k) as nat),
            ensures
                target == index,
                index < len,
            decreases len - k,
        {
            index = wrap(index, dir, len);
            k += 1;
            if index != taken {
                break;
            }
        }
        let mut p = self.players[player_index];
        if is_scheme {
            p.scheme = index;
        } else {
            p.color_index = index;
        }
        self.players[player_index] = p;
        self.dirty = true;
        proof {
            let o = *old(self);
            let e = spec_cycle(o, player_index, is_scheme, dir as int, scheme_count);
            assert(self.players =~= e.players);
        }
    }
}

/// The settings a save file describes: the first two players' choices it lists,
/// the defaults for any it leaves out, and every other value as written. The
/// dirty flag is down, since nothing has changed since the save. Nothing is
/// clamped here; that is [`Settings::sanitize`], against the schemes the
/// platform actually offers.
pub fn restored(
    players: &[PlayerConfig],
    record_solo: i64,
    record_duo: i64,
    music_volume: u32,
    sfx_volume: u32,
    launches: u64,
) -> (s: Settings)
    ensures
        s.players[0] == (if players@.len() > 0 { players@[0] } else { default_settings().players[0] }),
        s.players[1] == (if players@.len() > 1 { players@[1] } else { default_settings().players[1] }),
        s.record_solo == record_solo,
        s.record_duo == record_duo,
        s.music_volume == music_volume,
        s.sfx_volume == sfx_volume,
        s.launches == launches,
        !s.dirty,
{
    let mut s = Settings::default();
    if players.len() > 0 {
        s.players[0] = players[0];
    }
    if players.len() > 1 {
        s.players[1] = players[1];
    }
    s.record_solo = record_solo;
    s.record_duo = record_duo;
    s.music_volume = music_volume;
    s.sfx_volume = sfx_volume;
    s.launches = launches;
    s.dirty = false;
    s
}

/// Stepping one row at a time through two or more entries always lands on an
/// entry, and off the one the other player holds: the two players can never
/// collide.
pub proof fn lemma_cycle_avoids_the_other_player(start: int, dir: int, len: int, taken: int)
    requires
        len >= 2,
        dir == 1 || dir == -1,
    ensures
        cycled(start, dir, len, taken, len as nat) != taken,
        0 <= cycled(start, dir, len, taken, len as nat) < len,
{
    let next = (start + dir) % len;
    if next != taken {
    } else {
        let second = (next + dir) % len;
        assert(second != taken) by {
            if dir == 1 {
                if taken + 1 < len {
                    vstd::arithmetic::div_mod::lemma_small_mod((taken + 1) as nat, len as nat);
                } else {
                    vstd::arithmetic::div_mod::lemma_fundamental_div_mod_converse(len, len, 1, 0);
                }
            } else {
                if taken >= 1 {
                    vstd::arithmetic::div_mod::lemma_small_mod((taken - 1) as nat, len as nat);
                } else {
                    vstd::arithmetic::div_mod::lemma_fundamental_div_mod_converse(-1, len, -1, len - 1);
                    assert(second == len - 1);
                }
            }
        }
        assert(cycled(next, dir, len, taken, (len - 1) as nat) == second);
    }
}

} // verus!

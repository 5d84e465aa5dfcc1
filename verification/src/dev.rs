//! Starting parameters for a run launched from the developer menu.
//!
//! Reaching wave 20 the honest way takes the better part of half an hour, which
//! makes anything that only goes wrong late effectively untestable by hand.
//! This is the shortcut, and it is deliberately a separate entry point rather
//! than a flag on the ordinary one: nothing here can be reached by a player who
//! did not go looking for it.
use vstd::prelude::*;

use crate::attack::{AttackKind, MAX_LEVEL};
use crate::boon::{no_boons, Boons, WallMod};
use crate::menu::{wrap, wrapped_index};
use crate::waves::{opt_str_view, spec_kind_label, spec_rule_label, WaveKind, WaveRule};

verus! {

/// Score moves in steps this size. A run worth of score is thousands of points,
/// so single units would be hundreds of presses.
pub const DEV_SCORE_STEP: i64 = 500;
/// Far past anything reachable, and far short of anything that overflows.
pub const DEV_MAX_WAVE: i64 = 99;
pub const DEV_MAX_SCORE: i64 = 500_000;

/// How many entries each of the menu's cycling rows has.
pub const KIND_CHOICES: usize = 6;
pub const RULE_CHOICES: usize = 6;
pub const WALL_CHOICES: usize = 3;
pub const ATTACK_CHOICES: usize = 9;

/// The kind row, by position. `None` means "leave it to roll", exactly as a
/// real run does; anything else pins it for every wave of the run.
pub open spec fn kind_choice(i: int) -> Option<WaveKind> {
    if i == 1 {
        Some(WaveKind::Mixed)
    } else if i == 2 {
        Some(WaveKind::GroundOnly)
    } else if i == 3 {
        Some(WaveKind::FlyersOnly)
    } else if i == 4 {
        Some(WaveKind::BasicOnly)
    } else if i == 5 {
        Some(WaveKind::JumpersOnly)
    } else {
        None
    }
}

pub open spec fn kind_position(k: Option<WaveKind>) -> int {
    match k {
        None => 0,
        Some(WaveKind::Mixed) => 1,
        Some(WaveKind::GroundOnly) => 2,
        Some(WaveKind::FlyersOnly) => 3,
        Some(WaveKind::BasicOnly) => 4,
        Some(WaveKind::JumpersOnly) => 5,
    }
}

pub open spec fn rule_choice(i: int) -> Option<WaveRule> {
    if i == 1 {
        Some(WaveRule::Normal)
    } else if i == 2 {
        Some(WaveRule::StaticCamera)
    } else if i == 3 {
        Some(WaveRule::NoJumps)
    } else if i == 4 {
        Some(WaveRule::NoWall)
    } else if i == 5 {
        Some(WaveRule::Hidden)
    } else {
        None
    }
}

pub open spec fn rule_position(r: Option<WaveRule>) -> int {
    match r {
        None => 0,
        Some(WaveRule::Normal) => 1,
        Some(WaveRule::StaticCamera) => 2,
        Some(WaveRule::NoJumps) => 3,
        Some(WaveRule::NoWall) => 4,
        Some(WaveRule::Hidden) => 5,
    }
}

/// The wall row, plain first.
pub open spec fn wall_choice(i: int) -> WallMod {
    if i == 1 {
        WallMod::Pull
    } else if i == 2 {
        WallMod::Push
    } else {
        WallMod::Plain
    }
}

pub open spec fn wall_position(w: WallMod) -> int {
    match w {
        WallMod::Plain => 0,
        WallMod::Pull => 1,
        WallMod::Push => 2,
    }
}

/// The attack row: every attack the menu can hand out, with the one the game
/// starts on first.
pub open spec fn attack_choice(i: int) -> AttackKind {
    if i == 1 {
        AttackKind::Hammer
    } else if i == 2 {
        AttackKind::Piercing
    } else if i == 3 {
        AttackKind::Lunge
    } else if i == 4 {
        AttackKind::SingleHit
    } else if i == 5 {
        AttackKind::Thin
    } else if i == 6 {
        AttackKind::Tall
    } else if i == 7 {
        AttackKind::Bullet
    } else if i == 8 {
        AttackKind::Frozen
    } else {
        AttackKind::Basic
    }
}

pub open spec fn attack_position(k: AttackKind) -> int {
    match k {
        AttackKind::Basic => 0,
        AttackKind::Hammer => 1,
        AttackKind::Piercing => 2,
        AttackKind::Lunge => 3,
        AttackKind::SingleHit => 4,
        AttackKind::Thin => 5,
        AttackKind::Tall => 6,
        AttackKind::Bullet => 7,
        AttackKind::Frozen => 8,
    }
}

pub open spec fn clamp_int(x: int, lo: int, hi: int) -> int {
    if x < lo {
        lo
    } else if x > hi {
        hi
    } else {
        x
    }
}

/// Every boon at once, as the one-press toggle hands them out.
pub open spec fn all_boons_held() -> Boons {
    Boons { double_jump: true, dash_free: true, shield: true, wall: WallMod::Pull }
}

pub open spec fn spec_all_boons(b: Boons) -> bool {
    b.double_jump && b.dash_free && b.shield && b.wall != WallMod::Plain
}

/// How the kind row names its entry: an unpinned row says so, and the ordinary
/// mix, which a real run never announces, is named here.
pub open spec fn dev_kind_label(kind: Option<WaveKind>) -> Seq<char> {
    match kind {
        None => "ANY"@,
        Some(k) => match spec_kind_label(k) {
            Some(l) => l,
            None => "MIXED"@,
        },
    }
}

pub open spec fn dev_rule_label(rule: Option<WaveRule>) -> Seq<char> {
    match rule {
        None => "ANY"@,
        Some(r) => match spec_rule_label(r) {
            Some(l) => l,
            None => "NORMAL"@,
        },
    }
}

#[derive(Clone, Copy, Debug, PartialEq, Eq, Structural)]
pub struct DevSetup {
    pub wave: i64,
    /// Handed to the first player, so the team total is the number on screen.
    pub score: i64,
    pub kind: Option<WaveKind>,
    pub rule: Option<WaveRule>,
    pub players: usize,
    pub attack: AttackKind,
    pub attack_level: u8,
    /// Standing upgrades to start the run holding.
    pub boons: Boons,
}

pub open spec fn default_dev() -> DevSetup {
    DevSetup {
        wave: 1,
        score: 0,
        kind: None,
        rule: None,
        players: 1,
        attack: AttackKind::Basic,
        attack_level: 1,
        boons: no_boons(),
    }
}

/// One wave up or down, kept within 1..=[`DEV_MAX_WAVE`].
pub open spec fn spec_adjust_wave(d: DevSetup, dir: int) -> DevSetup {
    DevSetup { wave: clamp_int(d.wave + dir, 1, DEV_MAX_WAVE as int) as i64, ..d }
}

/// One score step up or down, kept within 0..=[`DEV_MAX_SCORE`].
pub open spec fn spec_adjust_score(d: DevSetup, dir: int) -> DevSetup {
    DevSetup { score: clamp_int(d.score + dir * DEV_SCORE_STEP, 0, DEV_MAX_SCORE as int) as i64, ..d }
}

/// One player more or fewer, within what the platform seats.
pub open spec fn spec_adjust_players(d: DevSetup, dir: int, max_players: usize) -> DevSetup {
    DevSetup {
        players: clamp_int(d.players + dir, 1, if max_players < 1 { 1 } else { max_players as int }) as usize,
        ..d
    }
}

pub open spec fn spec_cycle_kind(d: DevSetup, dir: int) -> DevSetup {
    DevSetup { kind: kind_choice(wrapped_index(kind_position(d.kind), dir, KIND_CHOICES as int)), ..d }
}

pub open spec fn spec_cycle_rule(d: DevSetup, dir: int) -> DevSetup {
    DevSetup { rule: rule_choice(wrapped_index(rule_position(d.rule), dir, RULE_CHOICES as int)), ..d }
}

impl Default for DevSetup {
    fn default() -> (d: Self)
        ensures
            d == default_dev(),
    {
        Self {
            wave: 1,
            score: 0,
            kind: None,
            rule: None,
            players: 1,
            attack: AttackKind::Basic,
            attack_level: 1,
            boons: Boons::default(),
        }
    }
}

/// Steps `index` by `dir` and wraps, for the fixed lists above.
fn step(index: usize, dir: i32, len: usize) -> (r: usize)
    requires
        len > 0,
    ensures
        r == wrapped_index(index as int, dir as int, len as int),
        r < len,
{
    wrap(index, dir, len)
}

fn kind_at(i: usize) -> (k: Option<WaveKind>)
    ensures
        k == kind_choice(i as int),
{
    match i {
        1 => Some(WaveKind::Mixed),
        2 => Some(WaveKind::GroundOnly),
        3 => Some(WaveKind::FlyersOnly),
        4 => Some(WaveKind::BasicOnly),
        5 => Some(WaveKind::JumpersOnly),
        _ => None,
    }
}

fn kind_index(k: Option<WaveKind>) -> (i: usize)
    ensures
        i == kind_position(k),
{
    match k {
        None => 0,
        Some(WaveKind::Mixed) => 1,
        Some(WaveKind::GroundOnly) => 2,
        Some(WaveKind::FlyersOnly) => 3,
        Some(WaveKind::BasicOnly) => 4,
        Some(WaveKind::JumpersOnly) => 5,
    }
}

fn rule_at(i: usize) -> (r: Option<WaveRule>)
    ensures
        r == rule_choice(i as int),
{
    match i {
        1 => Some(WaveRule::Normal),
        2 => Some(WaveRule::StaticCamera),
        3 => Some(WaveRule::NoJumps),
        4 => Some(WaveRule::NoWall),
        5 => Some(WaveRule::Hidden),
        _ => None,
    }
}

fn rule_index(r: Option<WaveRule>) -> (i: usize)
    ensures
        i == rule_position(r),
{
    match r {
        None => 0,
        Some(WaveRule::Normal) => 1,
        Some(WaveRule::StaticCamera) => 2,
        Some(WaveRule::NoJumps) => 3,
        Some(WaveRule::NoWall) => 4,
        Some(WaveRule::Hidden) => 5,
    }
}

fn wall_at(i: usize) -> (w: WallMod)
    ensures
        w == wall_choice(i as int),
{
    match i {
        1 => WallMod::Pull,
        2 => WallMod::Push,
        _ => WallMod::Plain,
    }
}

fn wall_index(w: WallMod) -> (i: usize)
    ensures
        i == wall_position(w),
{
    match w {
        WallMod::Plain => 0,
        WallMod::Pull => 1,
        WallMod::Push => 2,
    }
}

fn attack_at(i: usize) -> (k: AttackKind)
    ensures
        k == attack_choice(i as int),
{
    match i {
        1 => AttackKind::Hammer,
        2 => AttackKind::Piercing,
        3 => AttackKind::Lunge,
        4 => AttackKind::SingleHit,
        5 => AttackKind::Thin,
        6 => AttackKind::Tall,
        7 => AttackKind::Bullet,
        8 => AttackKind::Frozen,
        _ => AttackKind::Basic,
    }
}

fn attack_index(k: AttackKind) -> (i: usize)
    ensures
        i == attack_position(k),
{
    match k {
        AttackKind::Basic => 0,
        AttackKind::Hammer => 1,
        AttackKind::Piercing => 2,
        AttackKind::Lunge => 3,
        AttackKind::SingleHit => 4,
        AttackKind::Thin => 5,
        AttackKind::Tall => 6,
        AttackKind::Bullet => 7,
        AttackKind::Frozen => 8,
    }
}

impl DevSetup {
    /// One wave up or down, kept within 1..=[`DEV_MAX_WAVE`].
    pub fn adjust_wave(&mut self, dir: i32)
        requires
            i64::MIN <= old(self).wave + dir <= i64::MAX,
        ensures
            *final(self) == spec_adjust_wave(*old(self), dir as int),
    {
        let w = self.wave + dir as i64;
        self.wave = if w < 1 {
            1
        } else if w > DEV_MAX_WAVE {
            DEV_MAX_WAVE
        } else {
            w
        };
    }

    /// One step of [`DEV_SCORE_STEP`] up or down, kept within
    /// 0..=[`DEV_MAX_SCORE`].
    pub fn adjust_score(&mut self, dir: i32)
        requires
            i64::MIN <= old(self).score + dir * DEV_SCORE_STEP <= i64::MAX,
        ensures
            *final(self) == spec_adjust_score(*old(self), dir as int),
    {
        let s = self.score + dir as i64 * DEV_SCORE_STEP;
        self.score = if s < 0 {
            0
        } else if s > DEV_MAX_SCORE {
            DEV_MAX_SCORE
        } else {
            s
        };
    }

    /// One player more or fewer, kept within what the platform seats.
    pub fn adjust_players(&mut self, dir: i32, max_players: usize)
        ensures
            *final(self) == spec_adjust_players(*old(self), dir as int, max_players),
    {
        let max: i128 = if max_players < 1 { 1 } else { max_players as i128 };
        let p = self.players as i128 + dir as i128;
        self.players = if p < 1 {
            1
        } else if p > max {
            max as usize
        } else {
            p as usize
        };
    }

    pub fn cycle_attack(&mut self, dir: i32)
        ensures
            *final(self) == (DevSetup {
                attack: attack_choice(
                    wrapped_index(attack_position(old(self).attack), dir as int, ATTACK_CHOICES as int),
                ),
                ..*old(self)
            }),
    {
        let at = attack_index(self.attack);
        self.attack = attack_at(step(at, dir, ATTACK_CHOICES));
    }

    pub fn adjust_attack_level(&mut self, dir: i32)
        ensures
            *final(self) == (DevSetup {
                attack_level: clamp_int(old(self).attack_level + dir, 1, MAX_LEVEL as int) as u8,
                ..*old(self)
            }),
    {
        let l = self.attack_level as i64 + dir as i64;
        self.attack_level = if l < 1 {
            1
        } else if l > MAX_LEVEL as i64 {
            MAX_LEVEL
        } else {
            l as u8
        };
    }

    pub fn toggle_double_jump(&mut self)
        ensures
            *final(self) == (DevSetup {
                boons: Boons { double_jump: !old(self).boons.double_jump, ..old(self).boons },
                ..*old(self)
            }),
    {
        self.boons.double_jump = !self.boons.double_jump;
    }

    pub fn toggle_dash_free(&mut self)
        ensures
            *final(self) == (DevSetup {
                boons: Boons { dash_free: !old(self).boons.dash_free, ..old(self).boons },
                ..*old(self)
            }),
    {
        self.boons.dash_free = !self.boons.dash_free;
    }

    pub fn toggle_shield(&mut self)
        ensures
            *final(self) == (DevSetup {
                boons: Boons { shield: !old(self).boons.shield, ..old(self).boons },
                ..*old(self)
            }),
    {
        self.boons.shield = !self.boons.shield;
    }

    pub fn cycle_wall(&mut self, dir: i32)
        ensures
            *final(self) == (DevSetup {
                boons: Boons {
                    wall: wall_choice(
                        wrapped_index(wall_position(old(self).boons.wall), dir as int, WALL_CHOICES as int),
                    ),
                    ..old(self).boons
                },
                ..*old(self)
            }),
    {
        let at = wall_index(self.boons.wall);
        self.boons.wall = wall_at(step(at, dir, WALL_CHOICES));
    }

    /// True when the run would start holding everything there is.
    pub fn all_boons(&self) -> (b: bool)
        ensures
            b == spec_all_boons(self.boons),
    {
        self.boons.double_jump && self.boons.dash_free && self.boons.shield && self.boons.wall
            != WallMod::Plain
    }

    /// Every boon at once, or none. What "set all the upgrades" means when it
    /// is one press: the wall goes to the first modified one rather than back
    /// to plain, because plain is what "off" already looks like.
    pub fn toggle_all_boons(&mut self)
        ensures
            *final(self) == (DevSetup {
                boons: if spec_all_boons(old(self).boons) {
                    no_boons()
                } else {
                    all_boons_held()
                },
                ..*old(self)
            }),
    {
        self.boons = if self.all_boons() {
            Boons::default()
        } else {
            Boons { double_jump: true, dash_free: true, shield: true, wall: WallMod::Pull }
        };
    }

    pub fn wall_label(&self) -> (s: &'static str)
        ensures
            s@ == (match self.boons.wall {
                WallMod::Plain => "PLAIN"@,
                WallMod::Pull => "BLACK"@,
                WallMod::Push => "GREY"@,
            }),
    {
        match self.boons.wall {
            WallMod::Plain => "PLAIN",
            WallMod::Pull => "BLACK",
            WallMod::Push => "GREY",
        }
    }

    pub fn cycle_kind(&mut self, dir: i32)
        ensures
            *final(self) == spec_cycle_kind(*old(self), dir as int),
    {
        let at = kind_index(self.kind);
        self.kind = kind_at(step(at, dir, KIND_CHOICES));
    }

    pub fn cycle_rule(&mut self, dir: i32)
        ensures
            *final(self) == spec_cycle_rule(*old(self), dir as int),
    {
        let at = rule_index(self.rule);
        self.rule = rule_at(step(at, dir, RULE_CHOICES));
    }

    /// `WaveKind::label` returns nothing for the ordinary mix, because a real
    /// run has nothing to announce there. A menu does.
    pub fn kind_label(&self) -> (s: &'static str)
        ensures
            s@ == dev_kind_label(self.kind),
    {
        match self.kind {
            None => "ANY",
            Some(kind) => match kind.label() {
                Some(l) => l,
                None => "MIXED",
            },
        }
    }

    pub fn rule_label(&self) -> (s: &'static str)
        ensures
            s@ == dev_rule_label(self.rule),
    {
        match self.rule {
            None => "ANY",
            Some(rule) => match rule.label() {
                Some(l) => l,
                None => "NORMAL",
            },
        }
    }
}

/* ---------------- laws of the menu rows ---------------- */

/// Stepping a row back undoes stepping it forward.
pub proof fn lemma_step_back_undoes_step(i: int, d: int, n: int)
    requires
        0 <= i < n,
    ensures
        wrapped_index(wrapped_index(i, d, n), -d, n) == i,
{
    let j = (i + d) % n;
    vstd::arithmetic::div_mod::lemma_add_mod_noop(i + d, -d, n);
    vstd::arithmetic::div_mod::lemma_add_mod_noop(j, -d, n);
    vstd::arithmetic::div_mod::lemma_mod_twice(i + d, n);
    vstd::arithmetic::div_mod::lemma_small_mod(i as nat, n as nat);
}

/// Every row's positions and entries line up one to one, so a row that steps
/// forward and then back lands on the entry it started on.
pub proof fn lemma_rows_step_back(setup: DevSetup, d: int)
    ensures
        kind_choice(wrapped_index(wrapped_index(kind_position(setup.kind), d, 6), -d, 6)) == setup.kind,
        rule_choice(wrapped_index(wrapped_index(rule_position(setup.rule), d, 6), -d, 6)) == setup.rule,
        wall_choice(wrapped_index(wrapped_index(wall_position(setup.boons.wall), d, 3), -d, 3))
            == setup.boons.wall,
        attack_choice(wrapped_index(wrapped_index(attack_position(setup.attack), d, 9), -d, 9))
            == setup.attack,
{
    lemma_step_back_undoes_step(kind_position(setup.kind), d, 6);
    lemma_step_back_undoes_step(rule_position(setup.rule), d, 6);
    lemma_step_back_undoes_step(wall_position(setup.boons.wall), d, 3);
    lemma_step_back_undoes_step(attack_position(setup.attack), d, 9);
}

/// Turning every boon on and pressing again clears them all: the one-press
/// toggle goes both ways.
pub proof fn lemma_toggle_all_twice(b: Boons)
    ensures
        !spec_all_boons(b) ==> spec_all_boons(all_boons_held()) && !spec_all_boons(no_boons()),
{
}

} // verus!

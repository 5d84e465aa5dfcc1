//! Wave pacing and the weighted spawn tables.
//!
//! Spawning is a tick-driven state machine, so everything advances on the same
//! fixed clock as the simulation. Each tick the manager is told where the wave
//! stands and answers with one [`WaveAction`].
use vstd::prelude::*;

use crate::config::{
    bosses_in_wave, elite_group_size, elites_in_wave, max_concurrent_enemies, spec_bosses_in_wave,
    spec_elite_group_size, spec_elites_in_wave, spec_max_concurrent_enemies, spec_wave_budget,
    wave_budget, BOSS_RAMP_FIRST_WAVE, BOSS_WAVE_EVERY, ELITE_ENTRY_FRACTION, ELITE_FIRST_WAVE, ELITE_RAMP_FIRST_WAVE,
    FLYING_BOSS_WAVE, ROLLED_BOSS_WAVE, SHEDDER_BOSS_WAVE, SHEDDER_MIN_WAVE, TICKS_PER_SEC, WAVE_COUNTDOWN_SECONDS,
};
use crate::rng::{
    flip_value, float_unit_value, range_state, range_value, xorshift, Rng, UNIT_DENOMINATOR,
};
use crate::rounding::{round_to_float_precision, to_float_precision};

verus! {

/// Which enemy variant to build, once the caller has decided "spawn a ground
/// enemy" or "spawn a flyer". Each entry unlocks at `min_wave` and is chosen by
/// weight among those currently unlocked, so new variants phase in gradually
/// instead of replacing the base roster.
#[derive(Clone, Copy, Debug, PartialEq, Eq, Structural)]
pub struct SpawnEntry {
    pub weight: u32,
    pub min_wave: i64,
    pub kind: GroundKind,
}

#[derive(Clone, Copy, Debug, PartialEq, Eq, Structural)]
pub enum GroundKind {
    Base,
    Runt,
    Jumper,
    Leaper,
    Armored,
    Frenzied,
    Splitter,
    Blinker,
    Shooter,
    /// Blinks out of reach when hurt and leaves a standing hazard where it was.
    Shedder,
}

/// Which boss to put out. From [`BOSS_RAMP_FIRST_WAVE`] each one in a wave is
/// drawn separately, so a late boss wave is a mixed set rather than a row of
/// the same thing.
#[derive(Clone, Copy, Debug, PartialEq, Eq, Structural)]
pub enum BossKind {
    /// The white slab the game has always had.
    Ground,
    Flying,
    /// Blinks away when hurt and leaves a standing hazard.
    Shedder,
    /// A rolled combination at boss health, which makes its own crowd.
    Rolled,
}

pub open spec fn boss_kind_at(i: int) -> BossKind {
    if i == 0 {
        BossKind::Ground
    } else if i == 1 {
        BossKind::Flying
    } else if i == 2 {
        BossKind::Shedder
    } else {
        BossKind::Rolled
    }
}

/// `n` bosses drawn one after another from state `s`, and the state after.
pub open spec fn boss_draws(s: u64, n: nat) -> (Seq<BossKind>, u64)
    decreases n,
{
    if n == 0 {
        (Seq::empty(), s)
    } else {
        let (before, s1) = boss_draws(s, (n - 1) as nat);
        (before.push(boss_kind_at(range_value(s1, 0, 3))), xorshift(s1))
    }
}

impl BossKind {
    pub const ALL: [BossKind; 4] = [
        BossKind::Ground,
        BossKind::Flying,
        BossKind::Shedder,
        BossKind::Rolled,
    ];

    fn roll(rng: &mut Rng) -> (k: BossKind)
        ensures
            k == boss_kind_at(range_value(old(rng)@, 0, 3)),
            final(rng)@ == xorshift(old(rng)@),
    {
        match rng.range(0, 3) {
            0 => BossKind::Ground,
            1 => BossKind::Flying,
            2 => BossKind::Shedder,
            _ => BossKind::Rolled,
        }
    }
}

#[derive(Clone, Copy, Debug, PartialEq, Eq, Structural)]
pub enum FlyerKind {
    Base,
    Teleporter,
}

#[derive(Clone, Copy, Debug, PartialEq, Eq, Structural)]
pub struct FlyerSpawnEntry {
    pub weight: u32,
    pub min_wave: i64,
    pub kind: FlyerKind,
}

/* ---------------- weighted picks ---------------- */

/// The ground spawn table, by position: the order variants are listed and
/// drawn in.
pub open spec fn ground_kind_at(i: int) -> GroundKind {
    if i == 0 {
        GroundKind::Base
    } else if i == 1 {
        GroundKind::Runt
    } else if i == 2 {
        GroundKind::Jumper
    } else if i == 3 {
        GroundKind::Leaper
    } else if i == 4 {
        GroundKind::Armored
    } else if i == 5 {
        GroundKind::Frenzied
    } else if i == 6 {
        GroundKind::Splitter
    } else if i == 7 {
        GroundKind::Blinker
    } else if i == 8 {
        GroundKind::Shooter
    } else {
        GroundKind::Shedder
    }
}

/// How often a ground variant is drawn, against the others unlocked.
pub open spec fn ground_weight(kind: GroundKind) -> int {
    match kind {
        GroundKind::Base => 6,
        _ => 2,
    }
}

/// The wave a ground variant joins the roster on.
pub open spec fn ground_min_wave(kind: GroundKind) -> int {
    match kind {
        GroundKind::Base => 1,
        GroundKind::Runt => 2,
        GroundKind::Jumper => 3,
        GroundKind::Leaper => 4,
        GroundKind::Armored => 5,
        GroundKind::Frenzied => 6,
        GroundKind::Splitter => 7,
        GroundKind::Blinker => 8,
        GroundKind::Shooter => 9,
        GroundKind::Shedder => SHEDDER_MIN_WAVE as int,
    }
}

pub open spec fn flyer_kind_at(i: int) -> FlyerKind {
    if i == 0 {
        FlyerKind::Base
    } else {
        FlyerKind::Teleporter
    }
}

pub open spec fn flyer_weight(kind: FlyerKind) -> int {
    match kind {
        FlyerKind::Base => 3,
        FlyerKind::Teleporter => 2,
    }
}

/// The wave a flyer variant joins the roster on.
pub open spec fn flyer_min_wave(kind: FlyerKind) -> int {
    match kind {
        FlyerKind::Base => 1,
        FlyerKind::Teleporter => 4,
    }
}

impl GroundKind {
    /// The ground spawn table in order.
    pub const ALL: [GroundKind; 10] = [
        GroundKind::Base,
        GroundKind::Runt,
        GroundKind::Jumper,
        GroundKind::Leaper,
        GroundKind::Armored,
        GroundKind::Frenzied,
        GroundKind::Splitter,
        GroundKind::Blinker,
        GroundKind::Shooter,
        GroundKind::Shedder,
    ];

    pub fn at(i: usize) -> (k: GroundKind)
        requires
            i < 10,
        ensures
            k == ground_kind_at(i as int),
    {
        match i {
            0 => GroundKind::Base,
            1 => GroundKind::Runt,
            2 => GroundKind::Jumper,
            3 => GroundKind::Leaper,
            4 => GroundKind::Armored,
            5 => GroundKind::Frenzied,
            6 => GroundKind::Splitter,
            7 => GroundKind::Blinker,
            8 => GroundKind::Shooter,
            _ => GroundKind::Shedder,
        }
    }

    pub fn spawn_weight(self) -> (w: u32)
        ensures
            w == ground_weight(self),
    {
        match self {
            GroundKind::Base => 6,
            _ => 2,
        }
    }

    pub fn min_wave(self) -> (w: i64)
        ensures
            w == ground_min_wave(self),
    {
        match self {
            GroundKind::Base => 1,
            GroundKind::Runt => 2,
            GroundKind::Jumper => 3,
            GroundKind::Leaper => 4,
            GroundKind::Armored => 5,
            GroundKind::Frenzied => 6,
            GroundKind::Splitter => 7,
            GroundKind::Blinker => 8,
            GroundKind::Shooter => 9,
            GroundKind::Shedder => SHEDDER_MIN_WAVE,
        }
    }

    /// This variant's row of the spawn table.
    pub fn spawn_entry(self) -> (e: SpawnEntry)
        ensures
            e.kind == self,
            e.weight == ground_weight(self),
            e.min_wave == ground_min_wave(self),
    {
        SpawnEntry { weight: self.spawn_weight(), min_wave: self.min_wave(), kind: self }
    }
}

impl FlyerKind {
    pub const ALL: [FlyerKind; 2] = [FlyerKind::Base, FlyerKind::Teleporter];

    pub fn at(i: usize) -> (k: FlyerKind)
        requires
            i < 2,
        ensures
            k == flyer_kind_at(i as int),
    {
        if i == 0 {
            FlyerKind::Base
        } else {
            FlyerKind::Teleporter
        }
    }

    pub fn spawn_weight(self) -> (w: u32)
        ensures
            w == flyer_weight(self),
    {
        match self {
            FlyerKind::Base => 3,
            FlyerKind::Teleporter => 2,
        }
    }

    pub fn min_wave(self) -> (w: i64)
        ensures
            w == flyer_min_wave(self),
    {
        match self {
            FlyerKind::Base => 1,
            FlyerKind::Teleporter => 4,
        }
    }

    /// This variant's row of the spawn table.
    pub fn spawn_entry(self) -> (e: FlyerSpawnEntry)
        ensures
            e.kind == self,
            e.weight == flyer_weight(self),
            e.min_wave == flyer_min_wave(self),
    {
        FlyerSpawnEntry { weight: self.spawn_weight(), min_wave: self.min_wave(), kind: self }
    }
}

/// Weight of the ground entries before position `n` that `wave` has unlocked.
pub open spec fn ground_weight_before(wave: int, n: int) -> int
    decreases n,
{
    if n <= 0 {
        0
    } else {
        let k = ground_kind_at(n - 1);
        ground_weight_before(wave, n - 1) + if wave >= ground_min_wave(k) {
            ground_weight(k)
        } else {
            0
        }
    }
}

/// The ground variant a draw `u` (a fraction of 2^53) lands on, looking from
/// position `i`: the first unlocked entry whose running weight passes
/// `u * total`, that product held at the precision of a 32-bit float.
pub open spec fn ground_pick_from(wave: int, u: int, total: int, i: int) -> GroundKind
    decreases 10 - i,
{
    if i >= 10 || i < 0 {
        GroundKind::Base
    } else {
        let k = ground_kind_at(i);
        if wave >= ground_min_wave(k) && to_float_precision((u * total) as nat) < ground_weight_before(wave, i + 1)
            * UNIT_DENOMINATOR {
            k
        } else {
            ground_pick_from(wave, u, total, i + 1)
        }
    }
}

/// The ground variant `pick_ground` returns for a draw of `u / 2^53`.
pub open spec fn ground_pick(wave: int, u: int) -> GroundKind {
    ground_pick_from(wave, u, ground_weight_before(wave, 10), 0)
}

pub open spec fn flyer_weight_before(wave: int, n: int) -> int
    decreases n,
{
    if n <= 0 {
        0
    } else {
        let k = flyer_kind_at(n - 1);
        flyer_weight_before(wave, n - 1) + if wave >= flyer_min_wave(k) {
            flyer_weight(k)
        } else {
            0
        }
    }
}

pub open spec fn flyer_pick_from(wave: int, u: int, total: int, i: int) -> FlyerKind
    decreases 2 - i,
{
    if i >= 2 || i < 0 {
        FlyerKind::Base
    } else {
        let k = flyer_kind_at(i);
        if wave >= flyer_min_wave(k) && to_float_precision((u * total) as nat) < flyer_weight_before(wave, i + 1)
            * UNIT_DENOMINATOR {
            k
        } else {
            flyer_pick_from(wave, u, total, i + 1)
        }
    }
}

pub open spec fn flyer_pick(wave: int, u: int) -> FlyerKind {
    flyer_pick_from(wave, u, flyer_weight_before(wave, 2), 0)
}

proof fn lemma_ground_weight_bounded(wave: int, n: int)
    ensures
        0 <= ground_weight_before(wave, n),
        n >= 0 ==> ground_weight_before(wave, n) <= 6 * n,
    decreases n,
{
    if n > 0 {
        lemma_ground_weight_bounded(wave, n - 1);
    }
}

proof fn lemma_flyer_weight_bounded(wave: int, n: int)
    ensures
        0 <= flyer_weight_before(wave, n),
        n >= 1 ==> flyer_weight_before(wave, n) <= 3 + 2 * (n - 1),
        n <= 2 ==> flyer_weight_before(wave, n) <= 5,
    decreases n,
{
    if n > 0 {
        lemma_flyer_weight_bounded(wave, n - 1);
    }
}

proof fn lemma_draw_fits(u: int, total: int, running: int)
    requires
        0 <= u < 2 * UNIT_DENOMINATOR,
        0 <= total <= 60,
        0 <= running <= 60,
    ensures
        0 <= u * total <= 2 * UNIT_DENOMINATOR * 60,
        running * UNIT_DENOMINATOR <= UNIT_DENOMINATOR * 60,
{
    assert(0 <= u * total <= 2 * UNIT_DENOMINATOR * 60) by (nonlinear_arith)
        requires
            0 <= u < 2 * UNIT_DENOMINATOR,
            0 <= total <= 60,
    ;
    assert(running * UNIT_DENOMINATOR <= UNIT_DENOMINATOR * 60) by (nonlinear_arith)
        requires
            0 <= running <= 60,
    ;
}

/// A ground pick never hands out a variant the wave has not unlocked.
pub proof fn lemma_ground_pick_respects_unlocks(wave: int, u: int, total: int, i: int)
    ensures
        ground_pick_from(wave, u, total, i) == GroundKind::Base || wave >= ground_min_wave(
            ground_pick_from(wave, u, total, i),
        ),
    decreases 10 - i,
{
    if 0 <= i < 10 {
        lemma_ground_pick_respects_unlocks(wave, u, total, i + 1);
    }
}

/// Draws a ground variant for `wave`, weighted among those it has unlocked.
pub fn pick_ground(wave: i64, rng: &mut Rng) -> (k: GroundKind)
    ensures
        k == ground_pick(wave as int, float_unit_value(old(rng)@)),
        final(rng)@ == xorshift(old(rng)@),
        k == GroundKind::Base || wave >= ground_min_wave(k),
{
    proof {
        lemma_ground_pick_respects_unlocks(wave as int, float_unit_value(rng@), ground_weight_before(wave as int, 10), 0);
    }
    let mut total: u64 = 0;
    let mut i: usize = 0;
    while i < 10
        invariant
            i <= 10,
            total == ground_weight_before(wave as int, i as int),
        decreases 10 - i,
    {
        proof {
            lemma_ground_weight_bounded(wave as int, i as int);
        }
        let kind = GroundKind::at(i);
        if wave >= kind.min_wave() {
            total = total + kind.spawn_weight() as u64;
        }
        i += 1;
    }
    let u = rng.unit();
    proof {
        lemma_ground_weight_bounded(wave as int, 10);
        lemma_draw_fits(u as int, total as int, 0);
    }
    let scaled = round_to_float_precision((u as u128) * (total as u128));
    let mut running: u64 = 0;
    let mut j: usize = 0;
    proof {
        lemma_ground_weight_bounded(wave as int, 10);
    }
    while j < 10
        invariant
            j <= 10,
            running == ground_weight_before(wave as int, j as int),
            total == ground_weight_before(wave as int, 10),
            total <= 60,
            u < 2 * UNIT_DENOMINATOR,
            u == float_unit_value(old(rng)@),
            scaled == to_float_precision(((u as int) * (total as int)) as nat),
            rng@ == xorshift(old(rng)@),
            ground_pick(wave as int, u as int) == ground_pick_from(wave as int, u as int, total as int, j as int),
        decreases 10 - j,
    {
        proof {
            lemma_ground_weight_bounded(wave as int, j as int);
        }
        let kind = GroundKind::at(j);
        if wave >= kind.min_wave() {
            running = running + kind.spawn_weight() as u64;
            proof {
                lemma_ground_weight_bounded(wave as int, j as int + 1);
                lemma_draw_fits(u as int, total as int, running as int);
            }
            if scaled < (running as u128) * (UNIT_DENOMINATOR as u128) {
                return kind;
            }
        }
        j += 1;
    }
    GroundKind::Base
}

/// Draws a flyer variant for `wave`, weighted among those it has unlocked.
pub fn pick_flyer(wave: i64, rng: &mut Rng) -> (k: FlyerKind)
    ensures
        k == flyer_pick(wave as int, float_unit_value(old(rng)@)),
        final(rng)@ == xorshift(old(rng)@),
        k == FlyerKind::Base || wave >= flyer_min_wave(k),
{
    let mut total: u64 = 0;
    let mut i: usize = 0;
    while i < 2
        invariant
            i <= 2,
            total == flyer_weight_before(wave as int, i as int),
            total <= 5,
        decreases 2 - i,
    {
        proof {
            lemma_flyer_weight_bounded(wave as int, i as int);
        }
        let kind = FlyerKind::at(i);
        if wave >= kind.min_wave() {
            total = total + kind.spawn_weight() as u64;
        }
        i += 1;
    }
    let u = rng.unit();
    proof {
        lemma_draw_fits(u as int, total as int, 0);
    }
    let scaled = round_to_float_precision((u as u128) * (total as u128));
    let mut running: u64 = 0;
    let mut j: usize = 0;
    while j < 2
        invariant
            j <= 2,
            running == flyer_weight_before(wave as int, j as int),
            running <= 5,
            total == flyer_weight_before(wave as int, 2),
            total <= 5,
            u < 2 * UNIT_DENOMINATOR,
            u == float_unit_value(old(rng)@),
            scaled == to_float_precision(((u as int) * (total as int)) as nat),
            rng@ == xorshift(old(rng)@),
            flyer_pick(wave as int, u as int) == flyer_pick_from(wave as int, u as int, total as int, j as int),
        decreases 2 - j,
    {
        let kind = FlyerKind::at(j);
        if wave >= kind.min_wave() {
            running = running + kind.spawn_weight() as u64;
            proof {
                lemma_ground_weight_bounded(wave as int, j as int + 1);
                lemma_draw_fits(u as int, total as int, running as int);
            }
            if scaled < (running as u128) * (UNIT_DENOMINATOR as u128) {
                return kind;
            }
        }
        j += 1;
    }
    FlyerKind::Base
}

/* ---------------- what kind of wave ---------------- */

/// Occasionally a wave is restricted to one kind of enemy, which changes how it
/// has to be fought: an all-flyer wave cannot be meleed the usual way, an
/// all-jumper wave never leaves the ground clear.
///
/// A restricted wave ignores the usual `min_wave` gating - that is the point of
/// it. A jumpers-only wave can turn up before jumpers would normally appear.
#[derive(Clone, Copy, Debug, PartialEq, Eq, Structural)]
pub enum WaveKind {
    /// The ordinary weighted mix.
    Mixed,
    /// Ground enemies only, any variant.
    GroundOnly,
    FlyersOnly,
    /// Nothing but plain zombies.
    BasicOnly,
    JumpersOnly,
}

/// How a wave plays, as opposed to who turns up in it.
///
/// A separate axis from [`WaveKind`] on purpose: one enum holding both would
/// make the two mutually exclusive, and "jumpers only, and you cannot jump" is
/// exactly the sort of pairing worth having. At most one of each per wave.
#[derive(Clone, Copy, Debug, PartialEq, Eq, Structural)]
pub enum WaveRule {
    Normal,
    /// The view stops where the wave began and the player is walled in.
    StaticCamera,
    /// No jumping. Down puts the wall up from standing, and the attack box is
    /// twice as long to make up for the lost mobility.
    NoJumps,
    /// No wall. The slam button instead buys invulnerability in mid-air, and
    /// landing heals a quarter of full health.
    NoWall,
    /// Nothing visible but the player, its attacks, blasts and score popups.
    /// Almost harmless, since fighting blind otherwise is not a fight.
    Hidden,
}

/// A quarter of [`UNIT_DENOMINATOR`], which a 32-bit float holds exactly: one
/// wave in four draws below it.
pub const QUARTER_CHANCE: u64 = 0x8_0000_0000_0000;

/// Whether `wave` is a boss wave.
pub open spec fn is_boss_wave(wave: int) -> bool {
    wave % (BOSS_WAVE_EVERY as int) == 0
}

fn boss_wave(wave: i64) -> (b: bool)
    ensures
        b == is_boss_wave(wave as int),
{
    let r = wave % BOSS_WAVE_EVERY;
    proof {
        // Divisibility by five does not depend on how the remainder is rounded.
        assert(r == 0 <==> is_boss_wave(wave as int)) by {
            vstd::arithmetic::div_mod::lemma_fundamental_div_mod(wave as int, 5);
        }
    }
    r == 0
}

pub open spec fn rule_variant(i: int) -> WaveRule {
    if i == 0 {
        WaveRule::StaticCamera
    } else if i == 1 {
        WaveRule::NoJumps
    } else if i == 2 {
        WaveRule::NoWall
    } else {
        WaveRule::Hidden
    }
}

pub open spec fn kind_variant(i: int) -> WaveKind {
    if i == 0 {
        WaveKind::GroundOnly
    } else if i == 1 {
        WaveKind::FlyersOnly
    } else if i == 2 {
        WaveKind::BasicOnly
    } else {
        WaveKind::JumpersOnly
    }
}

/// The rule `WaveRule::roll` gives `wave` from state `s`, and the state after.
pub open spec fn rule_roll(wave: int, s: u64) -> (WaveRule, u64) {
    if wave <= 1 {
        (WaveRule::Normal, s)
    } else if float_unit_value(s) >= QUARTER_CHANCE {
        (WaveRule::Normal, xorshift(s))
    } else {
        let s1 = xorshift(s);
        (rule_variant(range_value(s1, 0, 3)), xorshift(s1))
    }
}

/// The kind `WaveKind::roll` gives `wave` from state `s`, and the state after.
pub open spec fn kind_roll(wave: int, s: u64) -> (WaveKind, u64) {
    if wave <= 1 || is_boss_wave(wave) {
        (WaveKind::Mixed, s)
    } else if float_unit_value(s) >= QUARTER_CHANCE {
        (WaveKind::Mixed, xorshift(s))
    } else {
        let s1 = xorshift(s);
        (kind_variant(range_value(s1, 0, 3)), xorshift(s1))
    }
}

pub open spec fn spec_rule_label(rule: WaveRule) -> Option<Seq<char>> {
    match rule {
        WaveRule::Normal => None,
        WaveRule::StaticCamera => Some("HOLD THE LINE"@),
        WaveRule::NoJumps => Some("GROUNDED"@),
        WaveRule::NoWall => Some("NO WALL"@),
        WaveRule::Hidden => Some("BLIND"@),
    }
}

pub open spec fn spec_kind_label(kind: WaveKind) -> Option<Seq<char>> {
    match kind {
        WaveKind::Mixed => None,
        WaveKind::GroundOnly => Some("GROUND ONLY"@),
        WaveKind::FlyersOnly => Some("FLYERS ONLY"@),
        WaveKind::BasicOnly => Some("HORDE"@),
        WaveKind::JumpersOnly => Some("JUMPERS"@),
    }
}

pub open spec fn opt_str_view(s: Option<&'static str>) -> Option<Seq<char>> {
    match s {
        Some(t) => Some(t@),
        None => None,
    }
}

impl WaveRule {
    /// Shown during the countdown so the player can see it coming; nothing for
    /// an ordinary wave.
    pub fn label(self) -> (s: Option<&'static str>)
        ensures
            opt_str_view(s) == spec_rule_label(self),
    {
        match self {
            WaveRule::Normal => None,
            WaveRule::StaticCamera => Some("HOLD THE LINE"),
            WaveRule::NoJumps => Some("GROUNDED"),
            WaveRule::NoWall => Some("NO WALL"),
            WaveRule::Hidden => Some("BLIND"),
        }
    }

    /// Rolls the rule for an upcoming wave: one in four is special, the four
    /// specials equally likely. The first wave is always plain: the opening
    /// should teach the game, not a variant of it.
    pub fn roll(wave: i64, rng: &mut Rng) -> (r: WaveRule)
        ensures
            (r, final(rng)@) == rule_roll(wave as int, old(rng)@),
            wave <= 1 ==> r == WaveRule::Normal,
    {
        if wave <= 1 {
            return WaveRule::Normal;
        }
        if rng.unit() >= QUARTER_CHANCE {
            return WaveRule::Normal;
        }
        // `range` is inclusive at both ends, so four variants need 0..=3.
        match rng.range(0, 3) {
            0 => WaveRule::StaticCamera,
            1 => WaveRule::NoJumps,
            2 => WaveRule::NoWall,
            _ => WaveRule::Hidden,
        }
    }
}

impl WaveKind {
    /// Shown during the countdown so the player can see it coming.
    pub fn label(self) -> (s: Option<&'static str>)
        ensures
            opt_str_view(s) == spec_kind_label(self),
    {
        match self {
            WaveKind::Mixed => None,
            WaveKind::GroundOnly => Some("GROUND ONLY"),
            WaveKind::FlyersOnly => Some("FLYERS ONLY"),
            WaveKind::BasicOnly => Some("HORDE"),
            WaveKind::JumpersOnly => Some("JUMPERS"),
        }
    }

    /// Rolls the kind for an upcoming wave.
    ///
    /// Wave 1 and boss waves stay mixed: the first wave is the introduction,
    /// and a boss wave already is the special one. Otherwise one in four is
    /// restricted, the four restrictions equally likely.
    pub fn roll(wave: i64, rng: &mut Rng) -> (k: WaveKind)
        ensures
            (k, final(rng)@) == kind_roll(wave as int, old(rng)@),
            wave <= 1 || is_boss_wave(wave as int) ==> k == WaveKind::Mixed,
    {
        if wave <= 1 || boss_wave(wave) {
            return WaveKind::Mixed;
        }
        if rng.unit() >= QUARTER_CHANCE {
            return WaveKind::Mixed;
        }
        // Inclusive range: four variants need 0..=3, not 0..=4.
        match rng.range(0, 3) {
            0 => WaveKind::GroundOnly,
            1 => WaveKind::FlyersOnly,
            2 => WaveKind::BasicOnly,
            _ => WaveKind::JumpersOnly,
        }
    }
}

/* ---------------- the manager ---------------- */

/// What the wave manager wants the game to do this tick.
#[derive(Clone, Debug, PartialEq)]
pub enum WaveAction {
    Idle,
    SpawnGround(GroundKind),
    SpawnFlyer(FlyerKind),
    SpawnBosses(i64),
    /// Wave 10's single flying boss, in place of that wave's ground bosses.
    SpawnFlyingBoss,
    /// Wave 15's alternative: one shedder boss instead of that wave's three
    /// ground bosses. Rolled, so the wave is not the same fight every run.
    SpawnShedderBoss,
    /// A late boss wave's mixed set, each drawn separately.
    SpawnBossGroup(Vec<BossKind>),
    /// Wave 20's whole content: one rolled boss and nothing else at all.
    SpawnRolledBoss,
    /// This many rolled heavies at once, from [`ELITE_FIRST_WAVE`] on. What
    /// they turn out to be is the caller's business - the manager only decides
    /// how many and when.
    SpawnElite(usize),
    ClearWave,
}

pub struct WaveManager {
    /// What kind of wave is running. Rolled when a wave begins.
    pub kind: WaveKind,
    pub rule: WaveRule,
    /// Pinned by the developer menu. `None` leaves the roll alone, which is
    /// what every ordinary run uses.
    pub forced_kind: Option<WaveKind>,
    pub forced_rule: Option<WaveRule>,
    /// The current boss wave has yet to put its bosses out.
    pub boss_due: bool,
    /// Rolled heavies this wave still owes.
    pub elites_left: usize,
    /// How many of them come out together.
    pub elite_group: usize,
    /// -1 when no countdown is running, otherwise the number still displayed.
    pub countdown: i32,
    /// Ticks until the displayed countdown drops by one.
    pub countdown_timer: i32,
    /// Ticks until the next spawn decision.
    pub spawn_timer: i32,
}

/// A manager fresh for a run, with the given pins.
pub open spec fn fresh_manager(forced_kind: Option<WaveKind>, forced_rule: Option<WaveRule>) -> WaveManager {
    WaveManager {
        kind: WaveKind::Mixed,
        rule: WaveRule::Normal,
        forced_kind,
        forced_rule,
        boss_due: true,
        elites_left: 1,
        elite_group: 1,
        countdown: -1i32,
        countdown_timer: 0,
        spawn_timer: 0,
    }
}

impl Default for WaveManager {
    fn default() -> (m: Self)
        ensures
            m == fresh_manager(None, None),
    {
        Self {
            kind: WaveKind::Mixed,
            rule: WaveRule::Normal,
            forced_kind: None,
            forced_rule: None,
            boss_due: true,
            elites_left: 1,
            elite_group: 1,
            countdown: -1,
            countdown_timer: 0,
            spawn_timer: 0,
        }
    }
}

/// Integer division rounding up, for non-negative numerators and positive
/// divisors.
pub open spec fn div_ceil(a: int, b: int) -> int {
    (a + b - 1) / b
}

/// How many separate arrivals a wave's heavies make.
pub open spec fn elite_arrivals(wave: int) -> int {
    let total = spec_elites_in_wave(wave);
    let group = spec_elite_group_size(wave);
    let a = div_ceil(total, group);
    if a < 1 {
        1
    } else {
        a
    }
}

/// The spawn count the next heavy is due at.
///
/// The arrivals are spread evenly across the wave: a wave owing seven of them
/// puts one at every eighth of its budget, leaving a gap at each end. A lone
/// heavy waits for a quarter of the budget.
pub open spec fn spec_next_elite_at(elites_left: int, wave: int) -> int {
    let budget = spec_wave_budget(wave);
    let arrivals = elite_arrivals(wave);
    if arrivals == 1 {
        budget / (ELITE_ENTRY_FRACTION as int)
    } else {
        let done = div_ceil(spec_elites_in_wave(wave) - elites_left, spec_elite_group_size(wave));
        (budget * (done + 1)) / (arrivals + 1)
    }
}

/// Which branch of [`WaveManager::update`] a tick takes.
pub enum UpdatePhase {
    /// Between waves: the countdown runs and nothing spawns.
    Countdown,
    /// A spawn was made recently; waiting for the timer.
    Waiting,
    /// A group of rolled heavies is due.
    Elite,
    /// The rolled boss wave has put out its boss and only waits for the field
    /// to clear.
    RolledBossOut,
    /// A boss wave puts out its bosses.
    BossArrival,
    /// An ordinary spawn decision.
    Spawning,
    /// The budget is spent and the field is clear.
    Cleared,
    /// The budget is spent but stragglers remain.
    Straggling,
}

pub open spec fn elite_check_reached(m: WaveManager, wave: int) -> bool {
    &&& m.countdown < 0
    &&& m.spawn_timer <= 0
    &&& m.elites_left > 0
    &&& wave >= ELITE_FIRST_WAVE
    &&& !is_boss_wave(wave)
}

pub open spec fn update_phase(m: WaveManager, wave: int, spawn_count: int, live: int) -> UpdatePhase {
    if m.countdown >= 0 {
        UpdatePhase::Countdown
    } else if m.spawn_timer > 0 {
        UpdatePhase::Waiting
    } else if elite_check_reached(m, wave) && spawn_count >= spec_next_elite_at(m.elites_left as int, wave) {
        UpdatePhase::Elite
    } else if wave == ROLLED_BOSS_WAVE && !m.boss_due {
        UpdatePhase::RolledBossOut
    } else if spawn_count < spec_wave_budget(wave) {
        if is_boss_wave(wave) && m.boss_due {
            UpdatePhase::BossArrival
        } else {
            UpdatePhase::Spawning
        }
    } else if live == 0 {
        UpdatePhase::Cleared
    } else {
        UpdatePhase::Straggling
    }
}

/// What an ordinary spawn decision produces for a wave of `kind`, drawing from
/// state `s`, and the state after.
pub open spec fn spawn_choice(kind: WaveKind, wave: int, s: u64) -> (WaveAction, u64) {
    match kind {
        WaveKind::GroundOnly => (WaveAction::SpawnGround(ground_pick(wave, float_unit_value(s))), xorshift(s)),
        WaveKind::FlyersOnly => (WaveAction::SpawnFlyer(flyer_pick(wave, float_unit_value(s))), xorshift(s)),
        WaveKind::BasicOnly => (WaveAction::SpawnGround(GroundKind::Base), s),
        WaveKind::JumpersOnly => (
            WaveAction::SpawnGround(
                if flip_value(s) {
                    GroundKind::Jumper
                } else {
                    GroundKind::Leaper
                },
            ),
            xorshift(s),
        ),
        WaveKind::Mixed => {
            let s1 = xorshift(s);
            if flip_value(s) {
                (WaveAction::SpawnGround(ground_pick(wave, float_unit_value(s1))), xorshift(s1))
            } else if flip_value(s1) {
                let s2 = xorshift(s1);
                (WaveAction::SpawnFlyer(flyer_pick(wave, float_unit_value(s2))), xorshift(s2))
            } else {
                (WaveAction::Idle, xorshift(s1))
            }
        },
    }
}

/// What each kind of wave puts out on a spawn decision. A mixed wave fields a
/// ground enemy on the first coin's heads, otherwise a flyer on the second
/// coin's heads, and otherwise nothing this time, so it fields flyers as well
/// as ground enemies. A ground wave always fields a ground enemy, a flyer wave
/// a flyer, a basic wave a plain enemy, and a jumpers wave a jumper or a
/// leaper.
pub proof fn lemma_what_a_spawn_decision_fields(wave: int, s: u64)
    ensures
        flip_value(s) ==> spawn_choice(WaveKind::Mixed, wave, s).0 is SpawnGround,
        !flip_value(s) && flip_value(xorshift(s)) ==> spawn_choice(WaveKind::Mixed, wave, s).0 is SpawnFlyer,
        !flip_value(s) && !flip_value(xorshift(s)) ==> spawn_choice(WaveKind::Mixed, wave, s).0 is Idle,
        spawn_choice(WaveKind::GroundOnly, wave, s).0 is SpawnGround,
        spawn_choice(WaveKind::FlyersOnly, wave, s).0 is SpawnFlyer,
        spawn_choice(WaveKind::BasicOnly, wave, s).0 == WaveAction::SpawnGround(GroundKind::Base),
        spawn_choice(WaveKind::JumpersOnly, wave, s).0 == WaveAction::SpawnGround(GroundKind::Jumper)
            || spawn_choice(WaveKind::JumpersOnly, wave, s).0 == WaveAction::SpawnGround(GroundKind::Leaper),
{
}

/// The set piece a boss wave below the ramp puts out, drawing from `s`.
pub open spec fn boss_set_piece(wave: int, s: u64) -> (WaveAction, u64) {
    if wave == ROLLED_BOSS_WAVE {
        (WaveAction::SpawnRolledBoss, s)
    } else if wave == FLYING_BOSS_WAVE {
        (WaveAction::SpawnFlyingBoss, s)
    } else if wave == SHEDDER_BOSS_WAVE && flip_value(s) {
        (WaveAction::SpawnShedderBoss, xorshift(s))
    } else if wave == SHEDDER_BOSS_WAVE {
        (WaveAction::SpawnBosses((wave / (BOSS_WAVE_EVERY as int)) as i64), xorshift(s))
    } else {
        (WaveAction::SpawnBosses((wave / (BOSS_WAVE_EVERY as int)) as i64), s)
    }
}

/// One call of [`WaveManager::update`] on `wave`, with `sc` spawned so far
/// and `live` on the field: from manager `m` and generator state `s` to
/// manager `m2`, `action` and state `s2`.
pub open spec fn update_step(
    m: WaveManager,
    wave: int,
    sc: int,
    live: int,
    s: u64,
    m2: WaveManager,
    action: WaveAction,
    s2: u64,
) -> bool {
    let phase = update_phase(m, wave, sc, live);
    &&& phase is Countdown ==> {
            &&& action == WaveAction::Idle
            &&& m2 == countdown_ticked(m)
            &&& s2 == s
        }
        &&& phase is Waiting ==> {
            &&& action == WaveAction::Idle
            &&& m2 == (WaveManager { spawn_timer: (m.spawn_timer - 1) as i32, ..m })
            &&& s2 == s
        }
        &&& phase is Elite ==> {
            let group = if m.elite_group < m.elites_left { m.elite_group } else { m.elites_left };
            &&& action == WaveAction::SpawnElite(group)
            &&& m2 == (WaveManager {
                elites_left: (m.elites_left - group) as usize,
                spawn_timer: range_value(s, 6, 60) as i32,
                ..m
            })
            &&& s2 == xorshift(s)
        }
        &&& phase is RolledBossOut ==> {
            &&& live == 0 ==> action == WaveAction::ClearWave && m2 == m
            &&& live != 0 ==> action == WaveAction::Idle && m2 == (WaveManager { spawn_timer: 18, ..m })
            &&& s2 == s
        }
        &&& phase is BossArrival ==> {
            let s1 = xorshift(s);
            &&& m2 == (WaveManager {
                boss_due: false,
                spawn_timer: range_value(s, 6, 60) as i32,
                ..m
            })
            &&& wave >= BOSS_RAMP_FIRST_WAVE ==> {
                let (drawn, after) = boss_draws(s1, spec_bosses_in_wave(wave) as nat);
                &&& action matches WaveAction::SpawnBossGroup(v) && v@ == drawn
                &&& s2 == after
            }
            &&& wave < BOSS_RAMP_FIRST_WAVE ==> (action, s2) == boss_set_piece(wave, s1)
        }
        &&& phase is Spawning ==> {
            let s1 = xorshift(s);
            &&& m2 == (WaveManager {
                boss_due: if is_boss_wave(wave) { m.boss_due } else { true },
                spawn_timer: range_value(s, 6, 60) as i32,
                ..m
            })
            &&& live < spec_max_concurrent_enemies(wave) ==> (action, s2)
                == spawn_choice(m.kind, wave, s1)
            &&& live >= spec_max_concurrent_enemies(wave) ==> action == WaveAction::Idle
                && s2 == s1
        }
        &&& phase is Cleared ==> action == WaveAction::ClearWave && m2 == m && s2 == s
        &&& phase is Straggling ==> {
            &&& action == WaveAction::Idle
            &&& m2 == (WaveManager { spawn_timer: 18, ..m })
            &&& s2 == s
        }
}

/// An action that puts one or more bosses on the field.
pub open spec fn is_boss_action(a: WaveAction) -> bool {
    ||| a is SpawnBosses
    ||| a is SpawnFlyingBoss
    ||| a is SpawnShedderBoss
    ||| a is SpawnBossGroup
    ||| a is SpawnRolledBoss
}

/// A run of `update` calls on one wave, with nothing else touching the
/// manager or the generator in between: `ms[i]` and `ss[i]` are what call `i`
/// starts from, `ms[i + 1]` and `ss[i + 1]` what it leaves.
pub open spec fn is_run(
    ms: Seq<WaveManager>,
    acts: Seq<WaveAction>,
    ss: Seq<u64>,
    wave: int,
    counts: Seq<int>,
    lives: Seq<int>,
) -> bool {
    &&& ms.len() == acts.len() + 1
    &&& ss.len() == acts.len() + 1
    &&& counts.len() == acts.len()
    &&& lives.len() == acts.len()
    &&& forall|i: int|
        0 <= i < acts.len() ==> #[trigger] update_step(
            ms[i],
            wave,
            counts[i],
            lives[i],
            ss[i],
            ms[i + 1],
            acts[i],
            ss[i + 1],
        )
}

proof fn lemma_boss_step(
    m: WaveManager,
    wave: int,
    sc: int,
    live: int,
    s: u64,
    m2: WaveManager,
    a: WaveAction,
    s2: u64,
)
    requires
        update_step(m, wave, sc, live, s, m2, a, s2),
    ensures
        is_boss_action(a) ==> is_boss_wave(wave) && m.boss_due && !m2.boss_due,
        is_boss_wave(wave) && !m.boss_due ==> !m2.boss_due,
        wave == ROLLED_BOSS_WAVE && !m.boss_due ==> (a is Idle || a is ClearWave),
{
    let phase = update_phase(m, wave, sc, live);
    if phase is Spawning && live < spec_max_concurrent_enemies(wave) {
        let s1 = xorshift(s);
        match m.kind {
            WaveKind::Mixed => {
                if flip_value(s1) {
                } else {
                }
            },
            _ => {},
        }
        assert(!is_boss_action(spawn_choice(m.kind, wave, s1).0));
    }
    if phase is BossArrival && wave < BOSS_RAMP_FIRST_WAVE {
        assert(is_boss_action(boss_set_piece(wave, xorshift(s)).0));
    }
}

proof fn lemma_boss_run_prefix(
    ms: Seq<WaveManager>,
    acts: Seq<WaveAction>,
    ss: Seq<u64>,
    wave: int,
    counts: Seq<int>,
    lives: Seq<int>,
    i: int,
    j: int,
)
    requires
        is_run(ms, acts, ss, wave, counts, lives),
        is_boss_wave(wave),
        0 <= i < j <= acts.len(),
        !ms[i + 1].boss_due,
    ensures
        !ms[j].boss_due,
    decreases j - i,
{
    if j > i + 1 {
        lemma_boss_run_prefix(ms, acts, ss, wave, counts, lives, i, j - 1);
        lemma_boss_step(
            ms[j - 1],
            wave,
            counts[j - 1],
            lives[j - 1],
            ss[j - 1],
            ms[(j - 1) + 1],
            acts[j - 1],
            ss[(j - 1) + 1],
        );
    }
}

/// One boss per boss wave, and none on any other: through any run of
/// `update` calls on one wave, only a boss wave ever puts out bosses, and it
/// does so on at most one call. Wave 20, whose whole content is its rolled
/// boss, asks for nothing more once that boss is out: every later call only
/// waits or clears the wave.
pub proof fn lemma_one_boss_arrival_per_wave(
    ms: Seq<WaveManager>,
    acts: Seq<WaveAction>,
    ss: Seq<u64>,
    wave: int,
    counts: Seq<int>,
    lives: Seq<int>,
)
    requires
        is_run(ms, acts, ss, wave, counts, lives),
    ensures
        !is_boss_wave(wave) ==> forall|i: int| 0 <= i < acts.len() ==> !is_boss_action(#[trigger] acts[i]),
        forall|i: int, j: int|
            0 <= i < j < acts.len() && is_boss_action(#[trigger] acts[i]) ==> !is_boss_action(#[trigger] acts[j]),
        wave == ROLLED_BOSS_WAVE ==> forall|i: int, j: int|
            0 <= i < j < acts.len() && #[trigger] acts[i] == WaveAction::SpawnRolledBoss ==> (#[trigger] acts[j] is Idle
                || acts[j] is ClearWave),
{
    assert forall|i: int| 0 <= i < acts.len() && !is_boss_wave(wave) implies !is_boss_action(#[trigger] acts[i]) by {
        lemma_boss_step(ms[i], wave, counts[i], lives[i], ss[i], ms[i + 1], acts[i], ss[i + 1]);
    }
    assert forall|i: int, j: int|
        0 <= i < j < acts.len() && is_boss_action(#[trigger] acts[i]) implies !is_boss_action(#[trigger] acts[j]) by {
        lemma_boss_step(ms[i], wave, counts[i], lives[i], ss[i], ms[i + 1], acts[i], ss[i + 1]);
        lemma_boss_run_prefix(ms, acts, ss, wave, counts, lives, i, j);
        lemma_boss_step(ms[j], wave, counts[j], lives[j], ss[j], ms[j + 1], acts[j], ss[j + 1]);
    }
    assert forall|i: int, j: int|
        0 <= i < j < acts.len() && #[trigger] acts[i] == WaveAction::SpawnRolledBoss && wave == ROLLED_BOSS_WAVE
        implies (#[trigger] acts[j] is Idle || acts[j] is ClearWave) by {
        lemma_boss_step(ms[i], wave, counts[i], lives[i], ss[i], ms[i + 1], acts[i], ss[i + 1]);
        lemma_boss_run_prefix(ms, acts, ss, wave, counts, lives, i, j);
        lemma_boss_step(ms[j], wave, counts[j], lives[j], ss[j], ms[j + 1], acts[j], ss[j + 1]);
    }
}

/// The heavies still owed after `left` of them, in whole groups: what every
/// arrival leaves behind, starting from the wave's full count.
pub open spec fn owed_in_groups(wave: int, left: int) -> bool {
    &&& 0 <= left <= spec_elites_in_wave(wave)
    &&& left == 0 || (spec_elites_in_wave(wave) - left) % spec_elite_group_size(wave) == 0
}

/// The group that comes out when `left` are still owed.
pub open spec fn group_out(wave: int, left: int) -> int {
    let g = spec_elite_group_size(wave);
    if g < left {
        g
    } else {
        left
    }
}

proof fn lemma_group_facts(wave: int)
    ensures
        1 <= spec_elite_group_size(wave),
        0 <= spec_elites_in_wave(wave) <= 16,
        spec_elites_in_wave(wave) >= 1 ==> spec_elite_group_size(wave) <= spec_elites_in_wave(wave),
        spec_elites_in_wave(wave) >= 1 ==> wave >= ELITE_FIRST_WAVE,
        spec_elites_in_wave(wave) > spec_elite_group_size(wave) ==> wave >= ELITE_RAMP_FIRST_WAVE,
        wave >= ELITE_RAMP_FIRST_WAVE ==> spec_wave_budget(wave) == 150,
        ELITE_FIRST_WAVE <= wave < ELITE_RAMP_FIRST_WAVE ==> spec_wave_budget(wave) >= 60,
{
}

/// Each arrival of heavies fits the wave: it lands no later than the count
/// at which the next is due, and the last one still inside the budget.
proof fn lemma_arrivals_fit(wave: int, left: int)
    requires
        !is_boss_wave(wave),
        owed_in_groups(wave, left),
        left > 0,
    ensures
        0 <= spec_next_elite_at(left, wave),
        spec_next_elite_at(left, wave) + group_out(wave, left) <= spec_wave_budget(wave),
        left > group_out(wave, left) ==> spec_next_elite_at(left, wave) + group_out(wave, left)
            <= spec_next_elite_at(left - group_out(wave, left), wave),
        left > group_out(wave, left) ==> owed_in_groups(wave, left - group_out(wave, left)),
{
    lemma_group_facts(wave);
    let e = spec_elites_in_wave(wave);
    let g = spec_elite_group_size(wave);
    let b = spec_wave_budget(wave);
    let a = elite_arrivals(wave);
    let x = e - left;
    vstd::arithmetic::div_mod::lemma_fundamental_div_mod(x, g);
    let q = x / g;
    assert(x == g * q);
    assert(q >= 0) by (nonlinear_arith)
        requires
            x == g * q,
            x >= 0,
            g >= 1,
    ;
    vstd::arithmetic::div_mod::lemma_div_multiples_vanish_fancy(q, g - 1, g);
    assert(div_ceil(x, g) == q) by {
        assert(x + g - 1 == g * q + (g - 1));
    }
    if e <= g {
        // One arrival: all of them at once, a quarter of the way in.
        assert(div_ceil(e, g) <= 1) by (nonlinear_arith)
            requires
                1 <= e <= g,
        ;
        assert(a == 1);
        assert(left == e) by (nonlinear_arith)
            requires
                x == g * q,
                q >= 0,
                0 <= x < e,
                e <= g,
                x == e - left,
        ;
    } else {
        assert(b == 150);
        let c = e + g - 1;
        vstd::arithmetic::div_mod::lemma_fundamental_div_mod(c, g);
        assert(a == c / g);
        assert(2 <= a) by (nonlinear_arith)
            requires
                c == g * (c / g) + c % g,
                0 <= c % g < g,
                c >= 2 * g,
                a == c / g,
        ;
        assert(g * a <= c) by (nonlinear_arith)
            requires
                c == g * (c / g) + c % g,
                0 <= c % g,
                a == c / g,
        ;
        assert(g * (a + 1) <= 150) by (nonlinear_arith)
            requires
                g * a <= c,
                c == e + g - 1,
                e <= 16,
                g <= e,
        ;
        // q arrivals done, and fewer than all of them.
        assert(q + 1 <= a) by (nonlinear_arith)
            requires
                x == g * q,
                x <= e - 1,
                c == e + g - 1,
                g * a + c % g == c,
                c % g < g,
                g >= 1,
        ;
        assert(spec_next_elite_at(left, wave) == (150 * (q + 1)) / (a + 1));
        let nx = (150 * (q + 1)) / (a + 1);
        assert(nx + g <= 150) by (nonlinear_arith)
            requires
                nx == (150 * (q + 1)) / (a + 1),
                q + 1 <= a,
                g * (a + 1) <= 150,
                a >= 2,
                q >= 0,
        ;
        if left > g {
            let x2 = x + g;
            assert(x2 == g * (q + 1)) by (nonlinear_arith)
                requires
                    x == g * q,
                    x2 == x + g,
            ;
            vstd::arithmetic::div_mod::lemma_div_multiples_vanish_fancy(q + 1, g - 1, g);
            vstd::arithmetic::div_mod::lemma_mod_multiples_basic(q + 1, g);
            assert(x2 % g == 0) by {
                assert(x2 == (q + 1) * g) by (nonlinear_arith)
                    requires
                        x2 == g * (q + 1),
                ;
            }
            assert(div_ceil(x2, g) == q + 1) by {
                assert(x2 + g - 1 == g * (q + 1) + (g - 1));
            }
            assert(spec_next_elite_at(left - g, wave) == (150 * (q + 2)) / (a + 1));
            assert(nx + g <= (150 * (q + 2)) / (a + 1)) by (nonlinear_arith)
                requires
                    nx == (150 * (q + 1)) / (a + 1),
                    g * (a + 1) <= 150,
                    a >= 2,
                    q >= 0,
            ;
        }
    }
}

/// How many a spawn action puts on the field, heavies counted one by one.
pub open spec fn spawned_by(a: WaveAction) -> int {
    match a {
        WaveAction::SpawnElite(n) => n as int,
        WaveAction::Idle => 0,
        WaveAction::ClearWave => 0,
        _ => 1,
    }
}

/// How many heavies an action puts on the field.
pub open spec fn heavies_of(a: WaveAction) -> int {
    match a {
        WaveAction::SpawnElite(n) => n as int,
        _ => 0,
    }
}

/// How many heavies a run of actions put on the field.
pub open spec fn heavies_in(acts: Seq<WaveAction>) -> int
    decreases acts.len(),
{
    if acts.len() == 0 {
        0
    } else {
        heavies_in(acts.drop_last()) + heavies_of(acts.last())
    }
}

/// What holds of a wave's pacing before each call: the heavies still owed
/// come in whole groups, the count is inside the budget, and it has not gone
/// past the point the next heavies are due at.
pub open spec fn pacing_holds(wave: int, m: WaveManager, count: int) -> bool {
    &&& m.elite_group == spec_elite_group_size(wave)
    &&& owed_in_groups(wave, m.elites_left as int)
    &&& 0 <= count <= spec_wave_budget(wave)
    &&& m.elites_left > 0 ==> count <= spec_next_elite_at(m.elites_left as int, wave)
}

proof fn lemma_pacing_step(
    wave: int,
    m: WaveManager,
    c: int,
    live: int,
    s: u64,
    m2: WaveManager,
    a: WaveAction,
    s2: u64,
)
    requires
        !is_boss_wave(wave),
        update_step(m, wave, c, live, s, m2, a, s2),
        pacing_holds(wave, m, c),
    ensures
        pacing_holds(wave, m2, c + spawned_by(a)),
        m2.elites_left == m.elites_left - heavies_of(a),
        a matches WaveAction::SpawnElite(n) ==> n >= 1,
        a is ClearWave ==> c == spec_wave_budget(wave) && m.elites_left == 0,
{
    lemma_group_facts(wave);
    let phase = update_phase(m, wave, c, live);
    if m.elites_left > 0 {
        lemma_arrivals_fit(wave, m.elites_left as int);
    }
    if phase is Spawning && live < spec_max_concurrent_enemies(wave) {
        let s1 = xorshift(s);
        match m.kind {
            WaveKind::Mixed => {
                if flip_value(s1) {
                } else {
                }
            },
            _ => {},
        }
        let a0 = spawn_choice(m.kind, wave, s1).0;
        assert(a0 is SpawnGround || a0 is SpawnFlyer || a0 is Idle);
    }
}

proof fn lemma_pacing_prefix(
    ms: Seq<WaveManager>,
    acts: Seq<WaveAction>,
    ss: Seq<u64>,
    wave: int,
    counts: Seq<int>,
    lives: Seq<int>,
    k: int,
)
    requires
        is_run(ms, acts, ss, wave, counts, lives),
        !is_boss_wave(wave),
        ms[0].elites_left == spec_elites_in_wave(wave),
        0 <= k < acts.len(),
        ms[0].elite_group == spec_elite_group_size(wave),
        counts[0] == 0,
        forall|i: int| 0 <= i < acts.len() - 1 ==> #[trigger] counts[i + 1] == counts[i] + spawned_by(acts[i]),
    ensures
        pacing_holds(wave, ms[k], counts[k]),
        heavies_in(acts.take(k)) == spec_elites_in_wave(wave) - ms[k].elites_left,
        forall|i: int| 0 <= i < k ==> (#[trigger] acts[i] matches WaveAction::SpawnElite(n) ==> n >= 1),
    decreases k,
{
    lemma_group_facts(wave);
    if k == 0 {
        assert(acts.take(0) =~= Seq::<WaveAction>::empty());
        assert((spec_elites_in_wave(wave) - ms[0].elites_left) % spec_elite_group_size(wave) == 0) by {
            assert(spec_elites_in_wave(wave) - ms[0].elites_left == 0);
            vstd::arithmetic::div_mod::lemma_mod_multiples_basic(0, spec_elite_group_size(wave));
        }
        if ms[0].elites_left > 0 {
            lemma_arrivals_fit(wave, ms[0].elites_left as int);
        }
    } else {
        lemma_pacing_prefix(ms, acts, ss, wave, counts, lives, k - 1);
        let j = k - 1;
        lemma_pacing_step(wave, ms[j], counts[j], lives[j], ss[j], ms[j + 1], acts[j], ss[j + 1]);
        assert(counts[j + 1] == counts[j] + spawned_by(acts[j]));
        assert(acts.take(k).drop_last() =~= acts.take(j));
        assert(acts.take(k).last() == acts[j]);
    }
}

/// Heavies replace ordinary enemies rather than joining them. Through a whole
/// wave that is not a boss wave, from the moment it begins to the call that
/// clears it, counting every spawn action's enemies one by one: every heavy
/// arrival brings at least one, all the heavies the wave owes come out, and
/// heavies and ordinary enemies together come to exactly the wave's budget.
pub proof fn lemma_heavies_replace_ordinary_spawns(
    ms: Seq<WaveManager>,
    acts: Seq<WaveAction>,
    ss: Seq<u64>,
    wave: int,
    counts: Seq<int>,
    lives: Seq<int>,
)
    requires
        is_run(ms, acts, ss, wave, counts, lives),
        !is_boss_wave(wave),
        ms[0].elites_left == spec_elites_in_wave(wave),
        acts.len() >= 1,
        ms[0].elite_group == spec_elite_group_size(wave),
        counts[0] == 0,
        forall|i: int| 0 <= i < acts.len() - 1 ==> #[trigger] counts[i + 1] == counts[i] + spawned_by(acts[i]),
        acts[acts.len() - 1] is ClearWave,
    ensures
        forall|i: int| 0 <= i < acts.len() ==> (#[trigger] acts[i] matches WaveAction::SpawnElite(n) ==> n >= 1),
        heavies_in(acts) == spec_elites_in_wave(wave),
        counts[acts.len() - 1] == spec_wave_budget(wave),
{
    let k = acts.len() - 1;
    lemma_pacing_prefix(ms, acts, ss, wave, counts, lives, k);
    lemma_pacing_step(wave, ms[k], counts[k], lives[k], ss[k], ms[k + 1], acts[k], ss[k + 1]);
    assert(acts.drop_last() =~= acts.take(k));
}

/// A manager with its countdown advanced by one tick.
pub open spec fn countdown_ticked(m: WaveManager) -> WaveManager {
    if m.countdown_timer - 1 <= 0 {
        WaveManager { countdown: (m.countdown - 1) as i32, countdown_timer: TICKS_PER_SEC, ..m }
    } else {
        WaveManager { countdown_timer: (m.countdown_timer - 1) as i32, ..m }
    }
}

impl WaveManager {
    /// Back to a fresh run. The pinned modifiers survive on purpose: they are
    /// set before the run starts and are meant to hold for all of it.
    pub fn reset(&mut self)
        ensures
            *final(self) == fresh_manager(old(self).forced_kind, old(self).forced_rule),
    {
        let (kind, rule) = (self.forced_kind, self.forced_rule);
        *self = Self::default();
        self.forced_kind = kind;
        self.forced_rule = rule;
    }

    /// Ends the lull immediately; the next wave starts spawning at once.
    pub fn skip_countdown(&mut self)
        ensures
            *final(self) == (WaveManager { countdown: -1i32, countdown_timer: 0, ..*old(self) }),
    {
        self.countdown = -1;
        self.countdown_timer = 0;
    }

    /// True while the game is between waves.
    pub fn between_waves(&self) -> (b: bool)
        ensures
            b == (self.countdown >= 0),
    {
        self.countdown >= 0
    }

    pub fn begin_countdown(&mut self, seconds: i32)
        ensures
            *final(self) == (WaveManager {
                countdown: seconds,
                countdown_timer: TICKS_PER_SEC,
                ..*old(self)
            }),
    {
        self.countdown = seconds;
        self.countdown_timer = TICKS_PER_SEC;
    }

    /// Decides what the upcoming wave will be made of.
    ///
    /// Both rolls happen either way, pinned or not, so that pinning one does
    /// not shift the stream the rest of the run draws from.
    pub fn begin_wave(&mut self, wave: i64, rng: &mut Rng)
        ensures
            ({
                let (kind, s1) = kind_roll(wave as int, old(rng)@);
                let (rule, s2) = rule_roll(wave as int, s1);
                &&& final(self).kind == (match old(self).forced_kind {
                    Some(k) => k,
                    None => kind,
                })
                &&& final(self).rule == (match old(self).forced_rule {
                    Some(r) => r,
                    None => rule,
                })
                &&& final(rng)@ == s2
            }),
            final(self).elites_left == spec_elites_in_wave(wave as int),
            final(self).elite_group == spec_elite_group_size(wave as int),
            final(self).forced_kind == old(self).forced_kind,
            final(self).forced_rule == old(self).forced_rule,
            final(self).boss_due == old(self).boss_due,
            final(self).countdown == old(self).countdown,
            final(self).countdown_timer == old(self).countdown_timer,
            final(self).spawn_timer == old(self).spawn_timer,
    {
        let kind = WaveKind::roll(wave, rng);
        let rule = WaveRule::roll(wave, rng);
        self.kind = match self.forced_kind {
            Some(k) => k,
            None => kind,
        };
        self.rule = match self.forced_rule {
            Some(r) => r,
            None => rule,
        };
        self.elites_left = elites_in_wave(wave);
        self.elite_group = elite_group_size(wave);
    }

    /// Moves on from a cleared wave: the next wave is numbered one up, rolled
    /// as `begin_wave` rolls it, and counted down from
    /// [`WAVE_COUNTDOWN_SECONDS`]. Returns its number and whether it hands
    /// every player full health first, which a wave that pins the view in
    /// place does.
    pub fn next_wave(&mut self, wave: i64, rng: &mut Rng) -> (r: (i64, bool))
        requires
            wave < i64::MAX,
        ensures
            r.0 == wave + 1,
            ({
                let (kind, s1) = kind_roll(wave + 1, old(rng)@);
                let (rule, s2) = rule_roll(wave + 1, s1);
                &&& final(self).kind == (match old(self).forced_kind {
                    Some(k) => k,
                    None => kind,
                })
                &&& final(self).rule == (match old(self).forced_rule {
                    Some(p) => p,
                    None => rule,
                })
                &&& final(rng)@ == s2
            }),
            r.1 == (final(self).rule == WaveRule::StaticCamera),
            final(self).elites_left == spec_elites_in_wave(wave + 1),
            final(self).elite_group == spec_elite_group_size(wave + 1),
            final(self).forced_kind == old(self).forced_kind,
            final(self).forced_rule == old(self).forced_rule,
            final(self).boss_due == old(self).boss_due,
            final(self).countdown == WAVE_COUNTDOWN_SECONDS,
            final(self).countdown_timer == TICKS_PER_SEC,
            final(self).spawn_timer == old(self).spawn_timer,
    {
        let next = wave + 1;
        self.begin_wave(next, rng);
        self.begin_countdown(WAVE_COUNTDOWN_SECONDS);
        (next, self.rule == WaveRule::StaticCamera)
    }

    proof fn lemma_ceil_div_bounded(x: int, g: int)
        requires
            0 <= x <= 16,
            g >= 1,
        ensures
            0 <= (x + g - 1) / g <= x,
    {
        assert(0 <= (x + g - 1) / g <= x) by (nonlinear_arith)
            requires
                0 <= x <= 16,
                g >= 1,
        ;
    }

    fn next_elite_at(&self, wave: i64) -> (at: i64)
        requires
            elite_arrivals(wave as int) != 1 ==> self.elites_left <= spec_elites_in_wave(wave as int),
        ensures
            at == spec_next_elite_at(self.elites_left as int, wave as int),
    {
        let budget = wave_budget(wave);
        let total = elites_in_wave(wave);
        let group = elite_group_size(wave);
        // Arrivals, not heavies: a pair is one arrival and takes one slot.
        let a = ((total + group - 1) / group) as i64;
        let arrivals: i64 = if a < 1 { 1 } else { a };
        if arrivals == 1 {
            // Nothing to space out. It still waits, for the same reason one
            // ever did.
            return budget / ELITE_ENTRY_FRACTION;
        }
        let done = ((total - self.elites_left + group - 1) / group) as i64;
        proof {
            Self::lemma_ceil_div_bounded((total - self.elites_left) as int, group as int);
            Self::lemma_ceil_div_bounded(total as int, group as int);
            assert(0 <= done <= 16);
            assert(2 <= arrivals <= 16);
            assert(0 <= budget * (done + 1) <= 160 * 17) by (nonlinear_arith)
                requires
                    0 <= budget <= 160,
                    0 <= done <= 16,
            ;
        }
        (budget * (done + 1)) / (arrivals + 1)
    }

    /// Advances pacing by one tick and reports what should happen.
    ///
    /// `spawn_count` is how many the wave has spawned so far and
    /// `live_enemies` how many are still on the field.
    pub fn update(&mut self, wave: i64, spawn_count: i64, live_enemies: usize, rng: &mut Rng) -> (action: WaveAction)
        requires
            old(self).countdown >= 0 ==> old(self).countdown_timer > i32::MIN,
            elite_check_reached(*old(self), wave as int) && elite_arrivals(wave as int) != 1
                ==> old(self).elites_left <= spec_elites_in_wave(wave as int),
            wave >= BOSS_RAMP_FIRST_WAVE ==> spec_bosses_in_wave(wave as int) <= usize::MAX,
        ensures
            update_step(
                *old(self),
                wave as int,
                spawn_count as int,
                live_enemies as int,
                old(rng)@,
                *final(self),
                action,
                final(rng)@,
            ),
            // Whatever happened, the pins and the wave's kind and rule stay put,
            // and no more heavies come out than were owed.
            final(self).kind == old(self).kind,
            final(self).rule == old(self).rule,
            final(self).forced_kind == old(self).forced_kind,
            final(self).forced_rule == old(self).forced_rule,
            action matches WaveAction::SpawnElite(n) ==> n <= old(self).elites_left
                && final(self).elites_left == old(self).elites_left - n,
    {
        if self.countdown >= 0 {
            self.countdown_timer = self.countdown_timer - 1;
            if self.countdown_timer <= 0 {
                self.countdown = self.countdown - 1;
                self.countdown_timer = TICKS_PER_SEC;
            }
            return WaveAction::Idle;
        }

        if self.spawn_timer > 0 {
            self.spawn_timer = self.spawn_timer - 1;
            return WaveAction::Idle;
        }

        // The wave's heavies, spread through it. Boss waves are skipped: three
        // bosses and a rolled heavy in one wave is two headlines reading over
        // each other.
        if self.elites_left > 0 && wave >= ELITE_FIRST_WAVE && !boss_wave(wave)
            && spawn_count >= self.next_elite_at(wave)
        {
            let group = if self.elite_group < self.elites_left {
                self.elite_group
            } else {
                self.elites_left
            };
            self.elites_left = self.elites_left - group;
            self.spawn_timer = rng.range(6, 60);
            return WaveAction::SpawnElite(group);
        }

        // A wave that spawns nothing ordinary has spent its budget the moment
        // its boss is out; there is no count left to work through.
        if wave == ROLLED_BOSS_WAVE && !self.boss_due {
            return if live_enemies == 0 {
                WaveAction::ClearWave
            } else {
                self.spawn_timer = 18;
                WaveAction::Idle
            };
        }

        if spawn_count < wave_budget(wave) {
            // Boss waves drop their whole group in one go, once per wave.
            if boss_wave(wave) {
                if self.boss_due {
                    self.boss_due = false;
                    self.spawn_timer = rng.range(6, 60);
                    // 100-1000 ms at 60 Hz
                    return if wave >= BOSS_RAMP_FIRST_WAVE {
                        // Past the ramp a boss wave is a count and a handful of
                        // draws rather than a set piece.
                        let n = bosses_in_wave(wave);
                        WaveAction::SpawnBossGroup(roll_bosses(n, rng))
                    } else if wave == ROLLED_BOSS_WAVE {
                        WaveAction::SpawnRolledBoss
                    } else if wave == FLYING_BOSS_WAVE {
                        WaveAction::SpawnFlyingBoss
                    } else if wave == SHEDDER_BOSS_WAVE && rng.flip() {
                        // A coin flip rather than a fixed owner: wave 10 always
                        // belongs to the flying boss, but this wave is worth
                        // being two different fights.
                        WaveAction::SpawnShedderBoss
                    } else {
                        WaveAction::SpawnBosses(wave / BOSS_WAVE_EVERY)
                    };
                }
            } else {
                self.boss_due = true;
            }

            self.spawn_timer = rng.range(6, 60);

            if live_enemies < max_concurrent_enemies(wave) {
                return match self.kind {
                    // A restricted wave spawns on every opportunity; the coin
                    // flips below are what make a mixed wave feel sparse.
                    WaveKind::GroundOnly => WaveAction::SpawnGround(pick_ground(wave, rng)),
                    WaveKind::FlyersOnly => WaveAction::SpawnFlyer(pick_flyer(wave, rng)),
                    WaveKind::BasicOnly => WaveAction::SpawnGround(GroundKind::Base),
                    WaveKind::JumpersOnly => WaveAction::SpawnGround(
                        if rng.flip() {
                            GroundKind::Jumper
                        } else {
                            GroundKind::Leaper
                        },
                    ),
                    WaveKind::Mixed => {
                        if rng.flip() {
                            WaveAction::SpawnGround(pick_ground(wave, rng))
                        } else if rng.flip() {
                            WaveAction::SpawnFlyer(pick_flyer(wave, rng))
                        } else {
                            WaveAction::Idle
                        }
                    },
                };
            }
            return WaveAction::Idle;
        }

        if live_enemies == 0 {
            return WaveAction::ClearWave;
        }

        // Budget spent but stragglers remain: check back shortly.
        self.spawn_timer = 18;
        WaveAction::Idle
    }
}

/// Draws `n` bosses one after another.
fn roll_bosses(n: usize, rng: &mut Rng) -> (v: Vec<BossKind>)
    ensures
        (v@, final(rng)@) == boss_draws(old(rng)@, n as nat),
{
    let mut v: Vec<BossKind> = Vec::new();
    let mut i: usize = 0;
    while i < n
        invariant
            i <= n,
            (v@, rng@) == boss_draws(old(rng)@, i as nat),
        decreases n - i,
    {
        let k = BossKind::roll(rng);
        v.push(k);
        i += 1;
    }
    v
}

/* ---------------- laws of a wave ---------------- */

/// The first wave is plain on both axes, and a boss wave is never restricted.
pub proof fn lemma_openings_and_boss_waves_are_plain(wave: int, s: u64)
    ensures
        wave <= 1 ==> rule_roll(wave, s).0 == WaveRule::Normal && kind_roll(wave, s).0 == WaveKind::Mixed,
        is_boss_wave(wave) ==> kind_roll(wave, s).0 == WaveKind::Mixed,
{
}

/// A restricted wave only ever fields its own kind: a jumpers wave puts out
/// jumpers and leapers and nothing else, a basic wave plain enemies, a ground
/// wave no flyers and a flyer wave no ground enemies.
pub proof fn lemma_restricted_waves_field_only_their_kind(wave: int, s: u64)
    ensures
        spawn_choice(WaveKind::JumpersOnly, wave, s).0 == WaveAction::SpawnGround(GroundKind::Jumper)
            || spawn_choice(WaveKind::JumpersOnly, wave, s).0 == WaveAction::SpawnGround(GroundKind::Leaper),
        spawn_choice(WaveKind::BasicOnly, wave, s).0 == WaveAction::SpawnGround(GroundKind::Base),
        spawn_choice(WaveKind::GroundOnly, wave, s).0 is SpawnGround,
        spawn_choice(WaveKind::FlyersOnly, wave, s).0 is SpawnFlyer,
{
}

/// The early boss waves keep their set pieces: one ground boss on wave 5, the
/// flying boss alone on wave 10, three ground bosses or the shedder boss on
/// wave 15, and the rolled boss on wave 20.
pub proof fn lemma_early_boss_set_pieces(s: u64)
    ensures
        boss_set_piece(5, s).0 == WaveAction::SpawnBosses(1),
        boss_set_piece(FLYING_BOSS_WAVE as int, s).0 == WaveAction::SpawnFlyingBoss,
        boss_set_piece(SHEDDER_BOSS_WAVE as int, s).0 == WaveAction::SpawnBosses(3)
            || boss_set_piece(SHEDDER_BOSS_WAVE as int, s).0 == WaveAction::SpawnShedderBoss,
        boss_set_piece(ROLLED_BOSS_WAVE as int, s).0 == WaveAction::SpawnRolledBoss,
{
}

/// A late boss wave draws exactly its count of bosses.
pub proof fn lemma_boss_draws_count(s: u64, n: nat)
    ensures
        boss_draws(s, n).0.len() == n,
    decreases n,
{
    if n > 0 {
        lemma_boss_draws_count(s, (n - 1) as nat);
    }
}

} // verus!

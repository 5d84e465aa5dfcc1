//! Tuning constants that are counts, ticks and wave numbers, and the formulas
//! that pace a run from wave to wave.
//!
//! Every value is per tick of the fixed 60 Hz simulation clock.
use vstd::prelude::*;

verus! {

/// The simulation runs at a fixed rate.
pub const TICKS_PER_SEC: i32 = 60;

/// The wave the flying boss owns. It arrives instead of the ground bosses that
/// wave would otherwise bring, and only ever one of it turns up.
pub const FLYING_BOSS_WAVE: i64 = 10;

pub const JUMPER_JUMP_EVERY: i32 = 90;
pub const SPLITTER_CHILD_COUNT: u32 = 2;
pub const TELEPORTER_TELEPORT_EVERY: i32 = 120;
/// The leaper stands still this long, then throws itself at where the player
/// was. 700 ms, the closest the fixed clock can express.
pub const LEAPER_CROUCH_TICKS: i32 = 42;

/// Shooters telegraph. The white line tracks the player; when it turns red the
/// aim is locked, and that last stretch is the window to move out of the way.
pub const SHOOTER_AIM_TICKS: i32 = 36;
/// 100 ms at 60 Hz.
pub const SHOOTER_LOCK_TICKS: i32 = 6;
pub const SHOOTER_FIRE_EVERY: i32 = 100;

/// The wave at which the attack box stops growing.
pub const GUN_RAMP_WAVES: i64 = 15;

/// Ticks a dash takes to travel its distance.
pub const DASH_TICKS: i32 = 10;
/// Ticks before another dash may start, counted from the end of the last.
pub const DASH_COOLDOWN_TICKS: i32 = 25;
/// A dash costs a bar divided by this - a third of the way to the next charge.
pub const DASH_COST_DIVISOR: i64 = 3;
/// Added to a flyer's phase when a dash goes through it, in ticks of arc.
pub const FLYER_DASH_PHASE_SHIFT: i64 = 157;

/// The wave the shedder joins the roster on.
pub const SHEDDER_MIN_WAVE: i64 = 11;
/// Husks an ordinary shedder keeps standing at once.
pub const SHEDDER_HUSKS: usize = 1;
/// The wave the shedder boss may own, in place of that wave's ground bosses.
pub const SHEDDER_BOSS_WAVE: i64 = 15;
/// The wave whose boss health the shedder boss borrows.
pub const SHEDDER_BOSS_HEALTH_WAVE: i64 = 5;
/// Husks the shedder boss keeps standing: every one it has ever left.
pub const SHEDDER_BOSS_HUSKS: usize = usize::MAX;

pub const MAX_PLAYERS: usize = 2;

/// How long a melee swing stays active.
pub const ATTACK_TICKS: i32 = 6;
/// Ticks within which a second/third hit continues the combo.
pub const COMBO_WINDOW_TICKS: i64 = 60;
/// Popup lifetime in ticks.
pub const POPUP_LIFETIME: i64 = 30;

/// Seconds counted down between waves.
pub const WAVE_COUNTDOWN_SECONDS: i32 = 10;
/// How long the result screen holds after a run ends, in ticks: 1.2 s.
pub const GAME_OVER_TICKS: i32 = 72;

/// Number of selectable player colours.
pub const PLAYER_COLOR_COUNT: usize = 8;

/// What the settings screen calls each player colour, in palette order.
pub open spec fn spec_color_name(index: int) -> Seq<char> {
    if index == 0 {
        "GREEN"@
    } else if index == 1 {
        "CYAN"@
    } else if index == 2 {
        "MAGENTA"@
    } else if index == 3 {
        "ORANGE"@
    } else if index == 4 {
        "YELLOW"@
    } else if index == 5 {
        "WHITE"@
    } else if index == 6 {
        "BLUE"@
    } else {
        "RED"@
    }
}

pub fn player_color_name(index: usize) -> (name: &'static str)
    requires
        index < PLAYER_COLOR_COUNT,
    ensures
        name@ == spec_color_name(index as int),
{
    match index {
        0 => "GREEN",
        1 => "CYAN",
        2 => "MAGENTA",
        3 => "ORANGE",
        4 => "YELLOW",
        5 => "WHITE",
        6 => "BLUE",
        _ => "RED",
    }
}

/* ---------------- how many at once ---------------- */

/// Concurrent enemies allowed on screen for the first ten waves.
pub const MAX_CONCURRENT_ENEMIES: usize = 10;

/// The wave the crowd starts growing on.
///
/// The first ten waves are where the roster unlocks, so the thing that changes
/// there is *what* turns up. Once the player has met everything, the lever left
/// is how much of it is on screen at once, and that is what this ramp is.
pub const CROWD_RAMP_FIRST_WAVE: i64 = 11;

/// Waves per extra enemy on screen.
pub const CROWD_RAMP_EVERY: i64 = 2;

/// Ceiling on the crowd, as a multiple of the opening figure.
pub const CROWD_MAX_MULTIPLE: usize = 2;

pub open spec fn spec_max_concurrent_enemies(wave: int) -> int {
    if wave < CROWD_RAMP_FIRST_WAVE {
        MAX_CONCURRENT_ENEMIES as int
    } else {
        let grown = MAX_CONCURRENT_ENEMIES + (wave - CROWD_RAMP_FIRST_WAVE) / (CROWD_RAMP_EVERY as int) + 1;
        let ceiling = MAX_CONCURRENT_ENEMIES * CROWD_MAX_MULTIPLE;
        if grown > ceiling {
            ceiling as int
        } else {
            grown
        }
    }
}

/// Concurrent enemies allowed on screen during `wave`.
///
/// Flat until [`CROWD_RAMP_FIRST_WAVE`], then one more every
/// [`CROWD_RAMP_EVERY`] waves until it has doubled - which lands on wave 29 and
/// stays there.
pub fn max_concurrent_enemies(wave: i64) -> (n: usize)
    ensures
        n == spec_max_concurrent_enemies(wave as int),
        MAX_CONCURRENT_ENEMIES <= n <= MAX_CONCURRENT_ENEMIES * CROWD_MAX_MULTIPLE,
{
    if wave < CROWD_RAMP_FIRST_WAVE {
        return MAX_CONCURRENT_ENEMIES;
    }
    // +1 on the first ramp wave itself, hence the trailing increment.
    let extra = (wave - CROWD_RAMP_FIRST_WAVE) / CROWD_RAMP_EVERY + 1;
    let ceiling = MAX_CONCURRENT_ENEMIES * CROWD_MAX_MULTIPLE;
    if extra > (ceiling - MAX_CONCURRENT_ENEMIES) as i64 {
        ceiling
    } else {
        MAX_CONCURRENT_ENEMIES + extra as usize
    }
}

/* ---------------- rolled heavies and the wave budget ---------------- */

/// The first wave a rolled heavy turns up on: late enough that the fixed roster
/// has been met, since a rolled enemy only reads as unusual against a set the
/// player already knows.
pub const ELITE_FIRST_WAVE: i64 = 6;

/// The wave a run stops adding ordinary enemies to a wave and starts adding
/// heavies instead. From here the budget is frozen and the heavies ramp.
pub const ELITE_RAMP_FIRST_WAVE: i64 = 15;

/// The first wave the heavy count climbs by one rather than by two, and the
/// first on which they arrive in pairs.
pub const ELITE_PAIR_FIRST_WAVE: i64 = 21;

/// Most heavies a single wave owes.
pub const ELITE_MAX_PER_WAVE: usize = 16;

/// The first wave whose arrivals grow past pairs, by one more per wave until a
/// wave's heavies all land at once.
pub const ELITE_GROUP_GROWTH_FIRST_WAVE: i64 = 26;

/// A lone heavy waits for this fraction of the wave's budget: the wave opens
/// as an ordinary one and then turns.
pub const ELITE_ENTRY_FRACTION: i64 = 4;

/// Ordinary spawns each wave adds to the budget, until the ramp.
pub const BUDGET_PER_WAVE: i64 = 10;

/// The wave that is one rolled boss and nothing else at all.
pub const ROLLED_BOSS_WAVE: i64 = 20;

/// From here a boss wave is a count of separately drawn bosses rather than a
/// set piece.
pub const BOSS_RAMP_FIRST_WAVE: i64 = 25;

/// Boss waves come every this many waves.
pub const BOSS_WAVE_EVERY: i64 = 5;

pub open spec fn spec_wave_budget(wave: int) -> int {
    if wave < 0 {
        0
    } else if wave < ELITE_RAMP_FIRST_WAVE {
        wave * BUDGET_PER_WAVE
    } else {
        ELITE_RAMP_FIRST_WAVE * BUDGET_PER_WAVE
    }
}

/// Enemies a wave spawns in all, heavies included.
///
/// Grows by [`BUDGET_PER_WAVE`] a wave until [`ELITE_RAMP_FIRST_WAVE`] and is
/// frozen from there: past the ramp a wave is not larger than the one before
/// it, it is made of worse things. A wave numbered below zero has nothing to
/// spawn.
pub fn wave_budget(wave: i64) -> (b: i64)
    ensures
        b == spec_wave_budget(wave as int),
        0 <= b <= ELITE_RAMP_FIRST_WAVE * BUDGET_PER_WAVE,
{
    if wave < 0 {
        0
    } else if wave < ELITE_RAMP_FIRST_WAVE {
        wave * BUDGET_PER_WAVE
    } else {
        ELITE_RAMP_FIRST_WAVE * BUDGET_PER_WAVE
    }
}

/// Heavies owed at the last wave of the steep climb.
pub open spec fn steep_top() -> int {
    1 + 2 * (ELITE_PAIR_FIRST_WAVE - 1 - ELITE_RAMP_FIRST_WAVE)
}

pub open spec fn spec_elites_in_wave(wave: int) -> int {
    if wave < ELITE_FIRST_WAVE {
        0
    } else if wave < ELITE_RAMP_FIRST_WAVE {
        if wave % (BOSS_WAVE_EVERY as int) == 0 {
            0
        } else {
            1
        }
    } else if wave < ELITE_PAIR_FIRST_WAVE {
        1 + 2 * (wave - ELITE_RAMP_FIRST_WAVE)
    } else {
        let climbed = steep_top() + (wave - ELITE_PAIR_FIRST_WAVE + 1);
        if climbed > ELITE_MAX_PER_WAVE {
            ELITE_MAX_PER_WAVE as int
        } else {
            climbed
        }
    }
}

/// How many rolled heavies `wave` owes.
///
/// None before [`ELITE_FIRST_WAVE`], then one a wave - none on a boss wave -
/// until [`ELITE_RAMP_FIRST_WAVE`]. From there the count climbs by two a wave,
/// by one from [`ELITE_PAIR_FIRST_WAVE`], and stops at [`ELITE_MAX_PER_WAVE`].
pub fn elites_in_wave(wave: i64) -> (n: usize)
    ensures
        n == spec_elites_in_wave(wave as int),
        n <= ELITE_MAX_PER_WAVE,
{
    if wave < ELITE_FIRST_WAVE {
        0
    } else if wave < ELITE_RAMP_FIRST_WAVE {
        if wave % BOSS_WAVE_EVERY == 0 {
            0
        } else {
            1
        }
    } else if wave < ELITE_PAIR_FIRST_WAVE {
        (1 + 2 * (wave - ELITE_RAMP_FIRST_WAVE)) as usize
    } else {
        let top: i64 = 1 + 2 * (ELITE_PAIR_FIRST_WAVE - 1 - ELITE_RAMP_FIRST_WAVE);
        let over = wave - ELITE_PAIR_FIRST_WAVE + 1;
        if over > ELITE_MAX_PER_WAVE as i64 - top {
            ELITE_MAX_PER_WAVE
        } else {
            (top + over) as usize
        }
    }
}

pub open spec fn spec_elite_group_size(wave: int) -> int {
    if wave < ELITE_PAIR_FIRST_WAVE {
        1
    } else if wave < ELITE_GROUP_GROWTH_FIRST_WAVE {
        2
    } else {
        let grown = 2 + (wave - ELITE_GROUP_GROWTH_FIRST_WAVE + 1);
        let all = spec_elites_in_wave(wave);
        if grown > all {
            all
        } else {
            grown
        }
    }
}

/// How many of a wave's heavies come out together.
///
/// One at a time while the count climbs by two, in pairs while it climbs by
/// one, and from [`ELITE_GROUP_GROWTH_FIRST_WAVE`] one more per wave until the
/// whole wave's heavies land at once.
pub fn elite_group_size(wave: i64) -> (g: usize)
    ensures
        g == spec_elite_group_size(wave as int),
        g >= 1,
{
    if wave < ELITE_PAIR_FIRST_WAVE {
        1
    } else if wave < ELITE_GROUP_GROWTH_FIRST_WAVE {
        2
    } else {
        let all = elites_in_wave(wave);
        let over = wave - ELITE_GROUP_GROWTH_FIRST_WAVE + 1;
        if over >= all as i64 - 2 {
            all
        } else {
            (2 + over) as usize
        }
    }
}

pub open spec fn spec_bosses_in_wave(wave: int) -> int {
    (wave - ROLLED_BOSS_WAVE) / (BOSS_WAVE_EVERY as int) + 1
}

/// How many bosses a boss wave past [`BOSS_RAMP_FIRST_WAVE`] draws: two on the
/// first, and one more every boss wave after it.
pub fn bosses_in_wave(wave: i64) -> (n: usize)
    requires
        wave >= BOSS_RAMP_FIRST_WAVE,
        spec_bosses_in_wave(wave as int) <= usize::MAX,
    ensures
        n == spec_bosses_in_wave(wave as int),
        n >= 2,
{
    ((wave - ROLLED_BOSS_WAVE) / BOSS_WAVE_EVERY + 1) as usize
}

/* ---------------- laws of the pacing ---------------- */

/// The crowd is flat while the roster is still unlocking, never shrinks from
/// one wave to the next, never grows by more than one at once, and stops at
/// twice the opening figure from wave 29 on.
pub proof fn lemma_crowd_ramp(wave: int)
    ensures
        wave < CROWD_RAMP_FIRST_WAVE ==> spec_max_concurrent_enemies(wave) == MAX_CONCURRENT_ENEMIES,
        spec_max_concurrent_enemies(wave) <= spec_max_concurrent_enemies(wave + 1),
        spec_max_concurrent_enemies(wave + 1) <= spec_max_concurrent_enemies(wave) + 1,
        wave >= 29 ==> spec_max_concurrent_enemies(wave) == MAX_CONCURRENT_ENEMIES * CROWD_MAX_MULTIPLE,
{
}

/// A wave grows by [`BUDGET_PER_WAVE`] until the heavies start ramping, and
/// stops growing exactly there.
pub proof fn lemma_budget_freezes_where_heavies_ramp(wave: int)
    ensures
        1 <= wave < ELITE_RAMP_FIRST_WAVE ==> spec_wave_budget(wave) == wave * BUDGET_PER_WAVE,
        wave >= ELITE_RAMP_FIRST_WAVE ==> spec_wave_budget(wave) == spec_wave_budget(ELITE_RAMP_FIRST_WAVE as int),
{
}

/// The heavy count never falls from one wave to the next except onto an early
/// boss wave, which has none; it never exceeds what the wave's budget could
/// hold, and every group is no larger than the wave's whole count once heavies
/// are owed at all.
pub proof fn lemma_heavies_fit_their_wave(wave: int)
    ensures
        (wave + 1) % 5 != 0 || wave + 1 >= ELITE_RAMP_FIRST_WAVE ==> spec_elites_in_wave(wave)
            <= spec_elites_in_wave(wave + 1),
        spec_elites_in_wave(wave) <= spec_wave_budget(wave) || wave < 1,
        spec_elites_in_wave(wave) > 0 ==> 1 <= spec_elite_group_size(wave) <= spec_elites_in_wave(wave),
        ELITE_FIRST_WAVE <= wave < ELITE_RAMP_FIRST_WAVE ==> spec_elites_in_wave(wave) == (if wave % 5 == 0 {
            0int
        } else {
            1int
        }),
{
}

} // verus!

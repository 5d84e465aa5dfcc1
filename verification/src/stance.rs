//! What a player's buttons do, and what a tick of being alive does, in whole
//! numbers: which way the player faces, whether a jump, a slam, a dash or a
//! swing starts, which charge pays for it, and how the timers run down. The
//! field turns the answer into motion.
use vstd::prelude::*;

use crate::boon::{Boons, SHIELD_COOLDOWN_TICKS};
use crate::charge::{spec_pay_for_dash, spec_spend, Charges};
use crate::config::{ATTACK_TICKS, DASH_COOLDOWN_TICKS, DASH_TICKS};
use crate::game::{next_combo, spec_next_combo};
use crate::entities::Reach;
use crate::input::PlayerIntent;
use crate::waves::WaveRule;

verus! {

/// The part of a player that the buttons and the clock act on.
#[derive(Clone, Copy, Debug, PartialEq, Eq, Structural)]
pub struct Stance {
    pub grounded: bool,
    /// Cover bought on a wave without the wall; lasts until the next landing.
    pub invulnerable: bool,
    pub facing_right: bool,
    /// A slam is on its way down and raises the wall where it lands.
    pub slam_ready: bool,
    /// Ticks of dash travel left; a dash is running while this is positive.
    pub dash_ticks: i32,
    pub dash_cooldown: i32,
    /// Ticks of swing left; a swing is out while this is positive.
    pub attack_ticks: i32,
    pub combo: u32,
    pub combo_timestamp: i64,
    pub charges: Charges,
    /// Jumps left before the next landing: only ever above zero with the
    /// double jump, and spent by jumping off nothing.
    pub air_jumps: u8,
    /// The first tick the shield can absorb a touch again.
    pub shield_ready_at: i64,
}

#[derive(Clone, Copy, Debug, PartialEq, Eq, Structural)]
pub enum Heading {
    Left,
    Right,
    Still,
}

/// What the buttons set going this tick.
#[derive(Clone, Copy, Debug, PartialEq, Eq, Structural)]
pub struct Response {
    pub heading: Heading,
    pub jump: bool,
    /// Raise the wall on the spot.
    pub wall: bool,
    /// Drop fast towards the floor.
    pub dive: bool,
    /// A dash starts, in the direction now faced.
    pub dash: bool,
    /// A swing starts.
    pub swing: bool,
}

/// What a tick of being alive did.
#[derive(Clone, Copy, Debug, PartialEq, Eq, Structural)]
pub struct Settled {
    /// The landing raised the wall a slam had readied.
    pub wall: bool,
    /// The landing ended cover, which gives back a quarter of full health.
    pub healed: bool,
    /// The player travels by dash this tick rather than by walking.
    pub dash_move: bool,
    /// A full bar became a charge.
    pub banked: bool,
}

/// Held left alone walks left, held right alone walks right; both or neither
/// stand still.
pub open spec fn spec_heading(intent: PlayerIntent) -> Heading {
    if intent.left && !intent.right {
        Heading::Left
    } else if intent.right && !intent.left {
        Heading::Right
    } else {
        Heading::Still
    }
}

/// The slam button, as the wave's rule has it. On a wave without jumps a
/// grounded player raises the wall on the spot, for a charge. On a wave
/// without the wall an airborne player dives, and buys cover for a charge if
/// none is held yet. On any other wave an airborne player dives and the wall
/// goes up where it lands. Anything else does nothing. The result is the new
/// stance, whether the wall goes up now, and whether the player dives.
pub open spec fn spec_slam(s: Stance, rule: WaveRule) -> (Stance, bool, bool) {
    if rule == WaveRule::NoJumps {
        if s.grounded {
            let (c, spent) = spec_spend(s.charges);
            (Stance { charges: c, ..s }, spent, false)
        } else {
            (s, false, false)
        }
    } else if rule == WaveRule::NoWall {
        if s.grounded {
            (s, false, false)
        } else if !s.invulnerable && s.charges.super_charges > 0 {
            (Stance { charges: spec_spend(s.charges).0, invulnerable: true, ..s }, false, true)
        } else {
            (s, false, true)
        }
    } else if !s.grounded {
        (Stance { slam_ready: true, ..s }, false, true)
    } else {
        (s, false, false)
    }
}

/// One player's buttons for one tick: walk, jump (not on a wave without
/// jumps; from the floor, or off nothing once between landings with the double
/// jump), slam, dash (not while one runs or cools down, and only if it can be
/// paid for), swing (not while one is out).
pub open spec fn spec_respond(
    s: Stance,
    intent: PlayerIntent,
    boons: Boons,
    rule: WaveRule,
    wave: int,
    timer: i64,
) -> (Stance, Response) {
    let heading = spec_heading(intent);
    let facing = match heading {
        Heading::Left => false,
        Heading::Right => true,
        Heading::Still => s.facing_right,
    };
    let air_jump = intent.jump && !s.grounded && rule != WaveRule::NoJumps && boons.double_jump && s.air_jumps > 0;
    let s1 = Stance {
        facing_right: facing,
        air_jumps: if air_jump {
            (s.air_jumps - 1) as u8
        } else {
            s.air_jumps
        },
        ..s
    };
    let jump = intent.jump && rule != WaveRule::NoJumps && (s.grounded || air_jump);
    let (s2, wall, dive) = if intent.slam {
        spec_slam(s1, rule)
    } else {
        (s1, false, false)
    };
    let (c3, dash) = if intent.dash && s2.dash_ticks <= 0 && s2.dash_cooldown == 0 {
        spec_pay_for_dash(s2.charges, wave)
    } else {
        (s2.charges, false)
    };
    let s3 = if dash {
        Stance { charges: c3, dash_ticks: DASH_TICKS, ..s2 }
    } else {
        s2
    };
    let swing = intent.attack && s3.attack_ticks <= 0;
    let s4 = if swing {
        let (combo, stamp) = spec_next_combo(s3.combo, s3.combo_timestamp, timer);
        Stance { combo, combo_timestamp: stamp, attack_ticks: ATTACK_TICKS, ..s3 }
    } else {
        s3
    };
    (s4, Response { heading, jump, wall, dive, dash, swing })
}

/// One tick of being alive. A landing ends cover, puts the player on the
/// floor, stocks the air jump the double jump buys, and raises the wall a slam
/// readied, for a charge; leaving the floor just leaves it. A running dash
/// spends a tick and, when it ends, starts its cool-down, unless the dash is
/// free of it; a cool-down runs a tick down. Last, a full bar becomes a charge.
pub open spec fn spec_settle(s: Stance, landed: bool, boons: Boons, wave: int) -> (Stance, Settled) {
    let (s1, wall, healed) = if landed {
        let (c, spent) = if s.slam_ready {
            spec_spend(s.charges)
        } else {
            (s.charges, false)
        };
        (
            Stance {
                grounded: true,
                invulnerable: false,
                slam_ready: false,
                charges: c,
                air_jumps: if boons.double_jump {
                    1u8
                } else {
                    0u8
                },
                ..s
            },
            spent,
            s.invulnerable,
        )
    } else {
        (Stance { grounded: false, ..s }, false, false)
    };
    let dash_move = s1.dash_ticks > 0;
    let s2 = if dash_move {
        let left = s1.dash_ticks - 1;
        Stance {
            dash_ticks: left as i32,
            dash_cooldown: if left == 0 && !boons.dash_free {
                DASH_COOLDOWN_TICKS
            } else if left == 0 {
                0i32
            } else {
                s1.dash_cooldown
            },
            ..s1
        }
    } else {
        s1
    };
    let s3 = if s2.dash_cooldown > 0 {
        Stance { dash_cooldown: (s2.dash_cooldown - 1) as i32, ..s2 }
    } else {
        s2
    };
    let c = s3.charges;
    let banked = c.energy >= c.needed(wave);
    let s4 = if banked {
        Stance {
            charges: Charges {
                energy: (c.energy - c.needed(wave)) as i64,
                super_charges: (c.super_charges + 1) as i64,
                attacks_since_power_up: 0,
            },
            ..s3
        }
    } else {
        s3
    };
    (s4, Settled { wall, healed, dash_move, banked })
}

/// What the buttons do this tick.
pub fn respond(s: Stance, intent: PlayerIntent, boons: Boons, rule: WaveRule, wave: i64, timer: i64) -> (r: (
    Stance,
    Response,
))
    requires
        s.charges.attacks_since_power_up < i64::MAX - 1,
    ensures
        r == spec_respond(s, intent, boons, rule, wave as int, timer),
{
    let heading = if intent.left && !intent.right {
        Heading::Left
    } else if intent.right && !intent.left {
        Heading::Right
    } else {
        Heading::Still
    };
    let mut st = s;
    match heading {
        Heading::Left => st.facing_right = false,
        Heading::Right => st.facing_right = true,
        Heading::Still => {},
    }
    let air_jump = intent.jump && !s.grounded && rule != WaveRule::NoJumps && boons.double_jump && s.air_jumps > 0;
    if air_jump {
        st.air_jumps = st.air_jumps - 1;
    }
    let jump = intent.jump && rule != WaveRule::NoJumps && (s.grounded || air_jump);
    let mut wall = false;
    let mut dive = false;
    if intent.slam {
        if rule == WaveRule::NoJumps {
            if st.grounded {
                let mut c = st.charges;
                wall = c.spend();
                st.charges = c;
            }
        } else if rule == WaveRule::NoWall {
            if !st.grounded {
                if !st.invulnerable && st.charges.super_charges > 0 {
                    let mut c = st.charges;
                    c.spend();
                    st.charges = c;
                    st.invulnerable = true;
                }
                dive = true;
            }
        } else if !st.grounded {
            st.slam_ready = true;
            dive = true;
        }
    }
    let mut dash = false;
    if intent.dash && st.dash_ticks <= 0 && st.dash_cooldown == 0 {
        let mut c = st.charges;
        dash = c.pay_for_dash(wave);
        if dash {
            st.charges = c;
            st.dash_ticks = DASH_TICKS;
        }
    }
    let swing = intent.attack && st.attack_ticks <= 0;
    if swing {
        let (combo, stamp) = next_combo(st.combo, st.combo_timestamp, timer);
        st.combo = combo;
        st.combo_timestamp = stamp;
        st.attack_ticks = ATTACK_TICKS;
    }
    (st, Response { heading, jump, wall, dive, dash, swing })
}

/// A tick of being alive; `landed` says whether this tick's fall reached the
/// floor.
pub fn settle(s: Stance, landed: bool, boons: Boons, wave: i64) -> (r: (Stance, Settled))
    requires
        s.charges.attacks_since_power_up < i64::MAX,
        s.charges.super_charges < i64::MAX,
    ensures
        r == spec_settle(s, landed, boons, wave as int),
{
    let mut st = s;
    let mut wall = false;
    let mut healed = false;
    if landed {
        healed = st.invulnerable;
        st.invulnerable = false;
        st.grounded = true;
        st.air_jumps = if boons.double_jump { 1 } else { 0 };
        if st.slam_ready {
            let mut c = st.charges;
            wall = c.spend();
            st.charges = c;
        }
        st.slam_ready = false;
    } else {
        st.grounded = false;
    }
    let dash_move = st.dash_ticks > 0;
    if dash_move {
        st.dash_ticks = st.dash_ticks - 1;
        if st.dash_ticks == 0 {
            st.dash_cooldown = if boons.dash_free { 0 } else { DASH_COOLDOWN_TICKS };
        }
    }
    if st.dash_cooldown > 0 {
        st.dash_cooldown = st.dash_cooldown - 1;
    }
    let mut c = st.charges;
    let banked = c.bank(wave);
    st.charges = c;
    (st, Settled { wall, healed, dash_move, banked })
}

/// Whether anything at all keeps a hit off the player: cover bought on a wave
/// without the wall, a wall on its way down or standing, or, for anything but
/// the one hazard that reaches through it, a dash.
pub open spec fn spec_untouchable(s: Stance, wall_up: bool, reach: Reach) -> bool {
    s.invulnerable || s.slam_ready || wall_up || (reach == Reach::Normal && s.dash_ticks > 0)
}

impl Stance {
    /// Every state that means "this cannot hurt me", in one place.
    pub fn untouchable(&self, wall_up: bool, reach: Reach) -> (b: bool)
        ensures
            b == spec_untouchable(*self, wall_up, reach),
    {
        self.invulnerable || self.slam_ready || wall_up || (reach == Reach::Normal && self.dash_ticks > 0)
    }
}

/// A touch that got through everything else: the shield, held and ready,
/// takes it and waits `SHIELD_COOLDOWN_TICKS` before it can take another.
/// A touch that could not have landed anyway does not spend it.
pub open spec fn spec_shield(s: Stance, boons: Boons, timer: int, untouchable: bool) -> (Stance, bool) {
    if !untouchable && boons.shield && timer >= s.shield_ready_at {
        (Stance { shield_ready_at: (timer + SHIELD_COOLDOWN_TICKS) as i64, ..s }, true)
    } else {
        (s, false)
    }
}

/// Whether the shield takes this touch, and the stance after.
pub fn shield_takes(s: Stance, boons: Boons, timer: i64, untouchable: bool) -> (r: (Stance, bool))
    requires
        timer <= i64::MAX - SHIELD_COOLDOWN_TICKS,
    ensures
        r == spec_shield(s, boons, timer as int, untouchable),
{
    if !untouchable && boons.shield && timer >= s.shield_ready_at {
        (Stance { shield_ready_at: timer + SHIELD_COOLDOWN_TICKS, ..s }, true)
    } else {
        (s, false)
    }
}

/// No button ever leaves a player owing a charge: held charges stay at zero or
/// above through a tick of buttons and a tick of being alive (short of the
/// largest count a charge tally can hold, past which a tick cannot bank).
pub proof fn lemma_charges_never_go_negative(
    s: Stance,
    intent: PlayerIntent,
    boons: Boons,
    rule: WaveRule,
    wave: int,
    timer: i64,
    landed: bool,
)
    requires
        0 <= s.charges.super_charges < i64::MAX,
    ensures
        spec_respond(s, intent, boons, rule, wave, timer).0.charges.super_charges >= 0,
        spec_settle(s, landed, boons, wave).0.charges.super_charges >= 0,
{
}

/// Every wall and every moment of cover is paid for with exactly one charge,
/// and a dash takes at most one: between them, the charges held after the
/// buttons are the ones held before, less one for each charge a slam spent,
/// less at most one more for the dash.
pub proof fn lemma_each_charge_buys_one_thing(
    s: Stance,
    intent: PlayerIntent,
    boons: Boons,
    rule: WaveRule,
    wave: int,
    timer: i64,
)
    ensures
        ({
            let (t, r) = spec_respond(s, intent, boons, rule, wave, timer);
            let slam_spent = r.wall || (t.invulnerable && !s.invulnerable);
            let before = s.charges.super_charges;
            let after = t.charges.super_charges;
            &&& slam_spent ==> before > 0
            &&& after <= before - (if slam_spent { 1int } else { 0int })
            &&& after >= before - (if slam_spent { 1int } else { 0int }) - (if r.dash { 1int } else { 0int })
        }),
{
}

/// A dash cannot start while one is running or cooling down, and a swing
/// cannot start while one is out.
pub proof fn lemma_nothing_starts_twice(
    s: Stance,
    intent: PlayerIntent,
    boons: Boons,
    rule: WaveRule,
    wave: int,
    timer: i64,
)
    ensures
        (s.dash_ticks > 0 || s.dash_cooldown != 0) ==> !spec_respond(s, intent, boons, rule, wave, timer).1.dash,
        s.attack_ticks > 0 ==> !spec_respond(s, intent, boons, rule, wave, timer).1.swing,
{
}

/// The double jump buys exactly one jump off nothing between landings: in the
/// air, a jump needs the boon and a stocked jump, spends it, and none is
/// stocked again until the next landing, which stocks one with the boon and
/// none without it. A wave without jumps allows none at all.
pub proof fn lemma_one_air_jump_per_landing(
    s: Stance,
    intent: PlayerIntent,
    boons: Boons,
    rule: WaveRule,
    wave: int,
    timer: i64,
    landed: bool,
)
    ensures
        ({
            let (t, r) = spec_respond(s, intent, boons, rule, wave, timer);
            &&& rule == WaveRule::NoJumps ==> !r.jump
            &&& r.jump && !s.grounded ==> boons.double_jump && s.air_jumps > 0 && t.air_jumps == s.air_jumps - 1
            &&& !(r.jump && !s.grounded) ==> t.air_jumps == s.air_jumps
            &&& t.grounded == s.grounded
        }),
        landed ==> spec_settle(s, landed, boons, wave).0.air_jumps == (if boons.double_jump { 1int } else { 0int }),
        !landed ==> spec_settle(s, landed, boons, wave).0.air_jumps == s.air_jumps,
{
}

/// The shield eats one touch and then waits: once it has taken one, no touch
/// within `SHIELD_COOLDOWN_TICKS` ticks is taken, and from then on the next
/// one is. A touch that could not land anyway never spends it.
pub proof fn lemma_shield_eats_one_touch_then_waits(
    s: Stance,
    boons: Boons,
    timer: int,
    later: int,
    untouchable: bool,
)
    requires
        timer <= later,
        timer + SHIELD_COOLDOWN_TICKS <= i64::MAX,
        spec_shield(s, boons, timer, false).1,
    ensures
        ({
            let t = spec_shield(s, boons, timer, false).0;
            &&& later < timer + SHIELD_COOLDOWN_TICKS ==> !spec_shield(t, boons, later, untouchable).1
            &&& later >= timer + SHIELD_COOLDOWN_TICKS && !untouchable ==> spec_shield(t, boons, later, untouchable).1
        }),
        !spec_shield(s, boons, timer, true).1,
        spec_shield(s, boons, timer, true).0 == s,
{
}

/// A player after `ticks` ticks of being alive, each with the same landing.
pub open spec fn settled_after(s: Stance, landed: bool, boons: Boons, wave: int, ticks: nat) -> Stance
    decreases ticks,
{
    if ticks == 0 {
        s
    } else {
        spec_settle(settled_after(s, landed, boons, wave, (ticks - 1) as nat), landed, boons, wave).0
    }
}

/// A dash runs its whole length, `DASH_TICKS` ticks of dash travel, and then,
/// unless it is free of the wait, the cool-down runs out; until it has, no
/// second dash can start, whatever is pressed. By then both clocks stand at
/// zero, and only the price is left between the player and the next dash. A
/// free dash leaves no cool-down at all once its travel ends.
pub proof fn lemma_a_dash_runs_its_length_then_cools_down(
    s: Stance,
    landed: bool,
    boons: Boons,
    wave: int,
    k: nat,
    intent: PlayerIntent,
    rule: WaveRule,
    timer: i64,
)
    requires
        s.dash_ticks == DASH_TICKS,
        s.dash_cooldown == 0,
        k <= DASH_TICKS + DASH_COOLDOWN_TICKS - 1,
    ensures
        k < DASH_TICKS ==> settled_after(s, landed, boons, wave, k).dash_ticks == DASH_TICKS - k
            && spec_settle(settled_after(s, landed, boons, wave, k), landed, boons, wave).1.dash_move,
        DASH_TICKS <= k && !boons.dash_free ==> settled_after(s, landed, boons, wave, k).dash_ticks == 0
            && settled_after(s, landed, boons, wave, k).dash_cooldown == DASH_TICKS + DASH_COOLDOWN_TICKS - 1 - k,
        DASH_TICKS <= k && boons.dash_free ==> settled_after(s, landed, boons, wave, k).dash_ticks == 0
            && settled_after(s, landed, boons, wave, k).dash_cooldown == 0,
        k < DASH_TICKS + DASH_COOLDOWN_TICKS - 1 && (!boons.dash_free || k < DASH_TICKS) ==> !spec_respond(
            settled_after(s, landed, boons, wave, k),
            intent,
            boons,
            rule,
            wave,
            timer,
        ).1.dash,
    decreases k,
{
    if k > 0 {
        lemma_a_dash_runs_its_length_then_cools_down(s, landed, boons, wave, (k - 1) as nat, intent, rule, timer);
    }
}

} // verus!

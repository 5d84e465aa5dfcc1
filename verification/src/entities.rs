//! The discrete half of what an enemy is: how it moves, what it does beyond
//! walking, and what a hit may reach through.
//!
//! Behaviour is data the simulation reads, so every enemy stays a plain value.
//! That data is a *set*, not a choice: an enemy may hop and shoot and shed all
//! at once. Movement is the one genuine choice, and an enum says so.
use vstd::prelude::*;

use crate::config::{
    JUMPER_JUMP_EVERY, LEAPER_CROUCH_TICKS, SHOOTER_AIM_TICKS, SHOOTER_FIRE_EVERY, SHOOTER_LOCK_TICKS,
    TELEPORTER_TELEPORT_EVERY,
};
use crate::rng::{range_state, range_value, Rng};

verus! {

/// What a hit is allowed to reach through.
#[derive(Clone, Copy, Debug, PartialEq, Eq, Structural)]
pub enum Reach {
    /// Stopped by every protection there is.
    Normal,
    /// Reaches a dashing player anyway - a raised wall still stops it.
    ///
    /// The shedder's husk, and only that. It takes no damage and it does not
    /// move, which makes it the one answer to using the dash as a crowd-clear.
    ThroughDash,
}

/// A leap in progress: the wind-up, then the committed arc.
#[derive(Clone, Copy, Debug, PartialEq, Eq, Structural)]
pub struct Leap {
    /// Ticks left standing dead still. That stillness is the tell.
    pub crouch: i32,
    /// While true the trajectory is locked and nothing steers it.
    pub airborne: bool,
}

/// How an enemy gets about. Exactly one of these, always.
///
/// Two ways of moving would both write the same velocity on the same tick and
/// one would silently win. Making it an enum says that in the type instead of
/// guarding for it at runtime.
#[derive(Clone, Copy, Debug, PartialEq, Eq, Structural)]
pub enum Movement {
    /// Walks at whoever is nearest.
    Run,
    /// Walks, and hops on a timer.
    Hop { cooldown: i32 },
    /// Stands still, then throws itself at where the player was.
    Leap(Leap),
    /// Rides the same sine an ordinary flyer does, gravity ignored. `offset`
    /// fixes where in that wave it starts.
    Fly { offset: i64 },
}

impl Default for Movement {
    fn default() -> (m: Self)
        ensures
            m == Movement::Run,
    {
        Movement::Run
    }
}

/// What a movement pattern asks of the body on one tick.
#[derive(Clone, Copy, Debug, PartialEq, Eq, Structural)]
pub enum Launch {
    /// Nothing beyond the ordinary walk and fall.
    Carry,
    /// Stop dead: a leaper winding up, or one just landed.
    Halt,
    /// A hopper's jump.
    Hop,
    /// A leaper's throw at the nearest player, committed until it lands.
    Leap,
}

impl Movement {
    /// One tick of the pattern, for a body that does or does not stand on the
    /// floor, with or without a player to leap at. A hopper counts down and
    /// jumps from the floor when the count is out, then starts it again. A
    /// leaper in the air waits to land and then winds up afresh; on the floor it
    /// stands still while it winds up, and then leaps, if there is anyone to
    /// leap at. Walkers and flyers have no clock.
    pub fn step(self, on_ground: bool, has_target: bool) -> (r: (Movement, Launch))
        ensures
            r == self.step_spec(on_ground, has_target),
    {
        match self {
            Movement::Hop { cooldown } => {
                if cooldown > 0 {
                    (Movement::Hop { cooldown: cooldown - 1 }, Launch::Carry)
                } else if on_ground {
                    (Movement::Hop { cooldown: JUMPER_JUMP_EVERY }, Launch::Hop)
                } else {
                    (self, Launch::Carry)
                }
            },
            Movement::Leap(l) => {
                if l.airborne {
                    if on_ground {
                        (Movement::Leap(Leap { crouch: LEAPER_CROUCH_TICKS, airborne: false }), Launch::Halt)
                    } else {
                        (self, Launch::Carry)
                    }
                } else if !on_ground {
                    (self, Launch::Carry)
                } else if l.crouch > 0 {
                    (Movement::Leap(Leap { crouch: l.crouch - 1, airborne: false }), Launch::Halt)
                } else if has_target {
                    (Movement::Leap(Leap { crouch: 0, airborne: true }), Launch::Leap)
                } else {
                    (self, Launch::Halt)
                }
            },
            _ => (self, Launch::Carry),
        }
    }
}

/// A leaper's pattern after `ticks` ticks on the floor with a player to leap at.
pub open spec fn grounded_after(m: Movement, ticks: nat) -> Movement
    decreases ticks,
{
    if ticks == 0 {
        m
    } else {
        grounded_after(m, (ticks - 1) as nat).step_spec(true, true).0
    }
}

impl Movement {
    /// What `step` returns.
    pub open spec fn step_spec(self, on_ground: bool, has_target: bool) -> (Movement, Launch) {
        match self {
            Movement::Hop { cooldown } => if cooldown > 0 {
                (Movement::Hop { cooldown: (cooldown - 1) as i32 }, Launch::Carry)
            } else if on_ground {
                (Movement::Hop { cooldown: JUMPER_JUMP_EVERY }, Launch::Hop)
            } else {
                (self, Launch::Carry)
            },
            Movement::Leap(l) => if l.airborne {
                if on_ground {
                    (Movement::Leap(Leap { crouch: LEAPER_CROUCH_TICKS, airborne: false }), Launch::Halt)
                } else {
                    (self, Launch::Carry)
                }
            } else if !on_ground {
                (self, Launch::Carry)
            } else if l.crouch > 0 {
                (Movement::Leap(Leap { crouch: (l.crouch - 1) as i32, airborne: false }), Launch::Halt)
            } else if has_target {
                (Movement::Leap(Leap { crouch: 0, airborne: true }), Launch::Leap)
            } else {
                (self, Launch::Halt)
            },
            _ => (self, Launch::Carry),
        }
    }
}

/// The leaper's tell: from the moment it lands, it stands dead still for
/// `LEAPER_CROUCH_TICKS` ticks and leaps on the tick after, given someone to
/// leap at.
pub proof fn lemma_leaper_winds_up_before_every_leap(k: nat)
    requires
        k <= LEAPER_CROUCH_TICKS,
    ensures
        ({
            let landed = Movement::Leap(Leap { crouch: LEAPER_CROUCH_TICKS, airborne: false });
            &&& grounded_after(landed, k) == Movement::Leap(Leap { crouch: (LEAPER_CROUCH_TICKS - k) as i32, airborne: false })
            &&& grounded_after(landed, k).step_spec(true, true).1 == (if k < LEAPER_CROUCH_TICKS {
                Launch::Halt
            } else {
                Launch::Leap
            })
        }),
    decreases k,
{
    if k > 0 {
        lemma_leaper_winds_up_before_every_leap((k - 1) as nat);
    }
}

/// A hopper on the floor jumps once every `JUMPER_JUMP_EVERY + 1` ticks.
pub proof fn lemma_hopper_jumps_once_a_period(k: nat)
    requires
        k <= JUMPER_JUMP_EVERY,
    ensures
        ({
            let fresh = Movement::Hop { cooldown: JUMPER_JUMP_EVERY };
            &&& grounded_after(fresh, k) == Movement::Hop { cooldown: (JUMPER_JUMP_EVERY - k) as i32 }
            &&& grounded_after(fresh, k).step_spec(true, true).1 == (if k < JUMPER_JUMP_EVERY {
                Launch::Carry
            } else {
                Launch::Hop
            })
        }),
    decreases k,
{
    if k > 0 {
        lemma_hopper_jumps_once_a_period((k - 1) as nat);
    }
}

/// Where a shooter stands in its cycle on one tick.
#[derive(Clone, Copy, Debug, PartialEq, Eq, Structural)]
pub enum Sight {
    /// Reloading; nothing to show.
    Dark,
    /// The run-up to the shot: the sight is shown, following the player until
    /// it locks.
    Aiming { locked: bool },
    /// The shot goes off down the sight.
    Fire,
}

/// One tick of a shooter's clock, with or without anyone to shoot at. Counting
/// down, the last stretch shows the sight and its last few ticks lock it; at
/// zero it fires and starts a full period, unless there is nobody to fire at,
/// in which case it waits at zero.
pub open spec fn spec_shooter_step(cooldown: i32, has_target: bool) -> (i32, Sight) {
    if cooldown > 0 {
        (
            (cooldown - 1) as i32,
            if cooldown <= SHOOTER_AIM_TICKS {
                Sight::Aiming { locked: cooldown <= SHOOTER_LOCK_TICKS }
            } else {
                Sight::Dark
            },
        )
    } else if has_target {
        (SHOOTER_FIRE_EVERY, Sight::Fire)
    } else {
        (cooldown, Sight::Dark)
    }
}

pub fn shooter_step(cooldown: i32, has_target: bool) -> (r: (i32, Sight))
    ensures
        r == spec_shooter_step(cooldown, has_target),
{
    if cooldown > 0 {
        let sight = if cooldown <= SHOOTER_AIM_TICKS {
            Sight::Aiming { locked: cooldown <= SHOOTER_LOCK_TICKS }
        } else {
            Sight::Dark
        };
        (cooldown - 1, sight)
    } else if has_target {
        (SHOOTER_FIRE_EVERY, Sight::Fire)
    } else {
        (cooldown, Sight::Dark)
    }
}

/// A shooter's count after `ticks` ticks with someone always in range.
pub open spec fn count_after(cooldown: i32, ticks: nat) -> i32
    decreases ticks,
{
    if ticks == 0 {
        cooldown
    } else {
        spec_shooter_step(count_after(cooldown, (ticks - 1) as nat), true).0
    }
}

/// What a shooter shows on tick `k` of a fresh period: the shot on the last
/// tick, the locked sight on the few before it, the tracking sight before
/// those, and nothing while it reloads.
pub open spec fn sight_in_period(k: int) -> Sight {
    let left = SHOOTER_FIRE_EVERY - k;
    if left == 0 {
        Sight::Fire
    } else if left <= SHOOTER_LOCK_TICKS {
        Sight::Aiming { locked: true }
    } else if left <= SHOOTER_AIM_TICKS {
        Sight::Aiming { locked: false }
    } else {
        Sight::Dark
    }
}

/// With someone always in range, a shooter fires once a period of
/// `SHOOTER_FIRE_EVERY + 1` ticks, and each shot is telegraphed: the sight
/// shows for `SHOOTER_AIM_TICKS` ticks before it, locked for the last
/// `SHOOTER_LOCK_TICKS` of them. After the shot the period starts again.
pub proof fn lemma_shooter_telegraphs_every_shot(k: nat)
    requires
        k <= SHOOTER_FIRE_EVERY,
    ensures
        count_after(SHOOTER_FIRE_EVERY, k) == SHOOTER_FIRE_EVERY - k,
        spec_shooter_step(count_after(SHOOTER_FIRE_EVERY, k), true).1 == sight_in_period(k as int),
        count_after(SHOOTER_FIRE_EVERY, (SHOOTER_FIRE_EVERY + 1) as nat) == SHOOTER_FIRE_EVERY,
    decreases k,
{
    if k > 0 {
        lemma_shooter_telegraphs_every_shot((k - 1) as nat);
    }
    lemma_shooter_count_runs_down(SHOOTER_FIRE_EVERY as nat);
}

proof fn lemma_shooter_count_runs_down(k: nat)
    requires
        k <= SHOOTER_FIRE_EVERY,
    ensures
        count_after(SHOOTER_FIRE_EVERY, k) == SHOOTER_FIRE_EVERY - k,
    decreases k,
{
    if k > 0 {
        lemma_shooter_count_runs_down((k - 1) as nat);
    }
}

/// What an enemy does beyond walking at whoever is nearest.
///
/// Each entry carries its own state, so two of them running at once do not
/// share a counter and cannot tread on each other.
#[derive(Clone, Copy, Debug, PartialEq, Eq, Structural)]
pub struct Behaviors {
    /// Ticks until the next shot.
    pub shoot: Option<i32>,
    /// Leaves a blast and jumps to the edge on contact, and once on damage.
    pub blink: bool,
    /// Blinks out of reach on every hit it survives, leaving a hazard behind.
    pub shed: bool,
}

pub open spec fn no_behaviors() -> Behaviors {
    Behaviors { shoot: None, blink: false, shed: false }
}

impl Default for Behaviors {
    fn default() -> (b: Self)
        ensures
            b == no_behaviors(),
    {
        Behaviors { shoot: None, blink: false, shed: false }
    }
}

impl Behaviors {
    /// Nothing but the walk every enemy has.
    pub fn plain() -> (b: Self)
        ensures
            b == no_behaviors(),
    {
        Self::default()
    }
}

/// What a flyer does beyond drifting along its wave.
#[derive(Clone, Copy, Debug, PartialEq, Eq, Structural)]
pub enum FlyerBehavior {
    /// Drifts along its wave and nothing more.
    Drift,
    /// Re-rolls its edge and wave phase instead of drifting, so it blinks around.
    Teleporter { cooldown: i32 },
}

impl FlyerBehavior {
    /// A teleporter with its first blink somewhere within one full period, so a
    /// group of them does not blink in step.
    pub fn teleporter(rng: &mut Rng) -> (b: FlyerBehavior)
        ensures
            b == (FlyerBehavior::Teleporter {
                cooldown: range_value(old(rng)@, 0, TELEPORTER_TELEPORT_EVERY) as i32,
            }),
            final(rng)@ == range_state(old(rng)@, 0, TELEPORTER_TELEPORT_EVERY),
    {
        FlyerBehavior::Teleporter { cooldown: rng.range(0, TELEPORTER_TELEPORT_EVERY) }
    }

    /// One tick of the clock: a teleporter counts down, and on reaching zero it
    /// blinks and starts a full period again. Returns the new behaviour and
    /// whether the flyer blinks this tick.
    pub fn tick(self) -> (r: (FlyerBehavior, bool))
        ensures
            r == (match self {
                FlyerBehavior::Teleporter { cooldown } => if cooldown > 0 {
                    (FlyerBehavior::Teleporter { cooldown: (cooldown - 1) as i32 }, false)
                } else {
                    (FlyerBehavior::Teleporter { cooldown: TELEPORTER_TELEPORT_EVERY }, true)
                },
                FlyerBehavior::Drift => (FlyerBehavior::Drift, false),
            }),
    {
        match self {
            FlyerBehavior::Teleporter { cooldown } => if cooldown > 0 {
                (FlyerBehavior::Teleporter { cooldown: cooldown - 1 }, false)
            } else {
                (FlyerBehavior::Teleporter { cooldown: TELEPORTER_TELEPORT_EVERY }, true)
            },
            FlyerBehavior::Drift => (FlyerBehavior::Drift, false),
        }
    }

    /// After a blink, whatever its cause: something that runs on a clock
    /// restarts it; the rest has no clock to restart.
    pub fn after_blink(self) -> (b: FlyerBehavior)
        ensures
            b == (match self {
                FlyerBehavior::Teleporter { .. } => FlyerBehavior::Teleporter { cooldown: TELEPORTER_TELEPORT_EVERY },
                FlyerBehavior::Drift => FlyerBehavior::Drift,
            }),
    {
        match self {
            FlyerBehavior::Teleporter { .. } => FlyerBehavior::Teleporter { cooldown: TELEPORTER_TELEPORT_EVERY },
            FlyerBehavior::Drift => FlyerBehavior::Drift,
        }
    }

    pub fn is_teleporter(&self) -> (b: bool)
        ensures
            b == (*self is Teleporter),
    {
        match self {
            FlyerBehavior::Teleporter { .. } => true,
            FlyerBehavior::Drift => false,
        }
    }
}

} // verus!

//! What a swing is made of.
//!
//! The player has one attack box and it has always meant one thing. The
//! upgrades offered between waves replace that meaning rather than adding to
//! it: each kind still has to do the attack's job - reach out, damage, throw
//! back, earn score - while trading one of its characteristics for another.
//!
//! This module holds the discrete half of each kind: its name, its timing,
//! which edge anchors it, how many of it may stand at once and whether it may
//! land once per swing. The continuous half - reach, height, damage and throw
//! multipliers - is measured in screen fractions and lives with the renderer's
//! geometry.
use vstd::prelude::*;

verus! {

/// Levels an upgrade can reach. Level 1 is what the first pick gives.
pub const MAX_LEVEL: u8 = 3;

/// Number of kinds in [`AttackKind::ALL`], the upgrade roster.
pub const ROSTER_LEN: usize = 8;

/// Which edge of the box stays put when its height changes.
#[derive(Clone, Copy, Debug, PartialEq, Eq, Structural)]
pub enum HeightAnchor {
    /// Grows and shrinks downward, so the top stays where the eye expects it.
    Top,
    /// Grows and shrinks upward. A short box then hugs the ground, which is
    /// what lets low enemies still be hit while flyers pass over untouched.
    Bottom,
}

#[derive(Clone, Copy, Debug, PartialEq, Eq, Structural)]
pub enum AttackKind {
    /// The swing the game ships with.
    Basic,
    /// Half the reach, twice the swing, and one heavy blow per enemy instead
    /// of a stream of light ones. Throws twice as far.
    Hammer,
    /// Ordinary reach that does not throw at all. The enemy stays in the box
    /// for the whole swing instead of being knocked clear a third of the way
    /// through, which is where the extra damage comes from.
    Piercing,
    /// Starts short and reaches further every tick of the swing.
    Lunge,
    /// One guaranteed hit per enemy per swing, for what an ordinary swing does
    /// at its best rather than at its average.
    SingleHit,
    /// A shallow strip out of both sides at once, sitting low.
    Thin,
    /// Shorter, but tall enough to cover the whole player.
    Tall,
    /// The swing is thrown instead of held: a square that travels, stops on
    /// what it hits and works for a moment longer.
    Bullet,
    /// The box is left standing where it was put and keeps working.
    Frozen,
}

/// The roster in offering order, by position. `Basic` is not on it: it is
/// what a run starts with, never what it is offered.
pub open spec fn roster(i: int) -> AttackKind {
    if i == 0 {
        AttackKind::Hammer
    } else if i == 1 {
        AttackKind::Piercing
    } else if i == 2 {
        AttackKind::Lunge
    } else if i == 3 {
        AttackKind::SingleHit
    } else if i == 4 {
        AttackKind::Thin
    } else if i == 5 {
        AttackKind::Tall
    } else if i == 6 {
        AttackKind::Bullet
    } else {
        AttackKind::Frozen
    }
}

pub open spec fn spec_label(kind: AttackKind) -> Seq<char> {
    match kind {
        AttackKind::Basic => "BASIC"@,
        AttackKind::Hammer => "HAMMER"@,
        AttackKind::Piercing => "PIERCE"@,
        AttackKind::Lunge => "LUNGE"@,
        AttackKind::SingleHit => "SINGLE"@,
        AttackKind::Thin => "SWEEP"@,
        AttackKind::Tall => "HEAVY"@,
        AttackKind::Bullet => "SHOT"@,
        AttackKind::Frozen => "TRAP"@,
    }
}

pub open spec fn spec_swing_ticks(kind: AttackKind, base: int) -> int {
    match kind {
        AttackKind::Hammer => base * 2,
        AttackKind::Frozen => 0,
        _ => base,
    }
}

pub open spec fn spec_detached(kind: AttackKind) -> bool {
    kind == AttackKind::Bullet || kind == AttackKind::Frozen
}

pub open spec fn clamp_level(level: u8) -> int {
    if level < 1 {
        1
    } else if level > MAX_LEVEL {
        MAX_LEVEL as int
    } else {
        level as int
    }
}

impl AttackKind {
    /// Every kind, in the order they should be offered.
    pub const ALL: [AttackKind; 8] = [
        AttackKind::Hammer,
        AttackKind::Piercing,
        AttackKind::Lunge,
        AttackKind::SingleHit,
        AttackKind::Thin,
        AttackKind::Tall,
        AttackKind::Bullet,
        AttackKind::Frozen,
    ];

    /// The `i`th kind of the roster, as [`AttackKind::ALL`] lists them.
    pub fn roster_at(i: usize) -> (k: AttackKind)
        requires
            i < ROSTER_LEN,
        ensures
            k == roster(i as int),
    {
        match i {
            0 => AttackKind::Hammer,
            1 => AttackKind::Piercing,
            2 => AttackKind::Lunge,
            3 => AttackKind::SingleHit,
            4 => AttackKind::Thin,
            5 => AttackKind::Tall,
            6 => AttackKind::Bullet,
            _ => AttackKind::Frozen,
        }
    }

    pub fn label(self) -> (s: &'static str)
        ensures
            s@ == spec_label(self),
    {
        match self {
            AttackKind::Basic => "BASIC",
            AttackKind::Hammer => "HAMMER",
            AttackKind::Piercing => "PIERCE",
            AttackKind::Lunge => "LUNGE",
            AttackKind::SingleHit => "SINGLE",
            AttackKind::Thin => "SWEEP",
            AttackKind::Tall => "HEAVY",
            AttackKind::Bullet => "SHOT",
            AttackKind::Frozen => "TRAP",
        }
    }

    /// How long a swing stays out - or, for a kind that puts something into
    /// the world instead of holding a box, how long until the next one.
    pub fn swing_ticks(self, base: i32) -> (t: i32)
        requires
            self == AttackKind::Hammer ==> i32::MIN <= base * 2 <= i32::MAX,
        ensures
            t == spec_swing_ticks(self, base as int),
    {
        match self {
            AttackKind::Hammer => base * 2,
            // No wait at all: how many may stand at once is the only limit on
            // placing them, and that is what its level buys.
            AttackKind::Frozen => 0,
            _ => base,
        }
    }

    /// How many of this kind's things may be in the world at once. Only the
    /// detached kinds have any; it is what their level buys.
    pub fn max_instances(self, level: u8) -> (n: usize)
        ensures
            spec_detached(self) ==> n == clamp_level(level),
            !spec_detached(self) ==> n == 0,
    {
        match self {
            AttackKind::Bullet | AttackKind::Frozen => {
                let l = if level < 1 {
                    1
                } else if level > MAX_LEVEL {
                    MAX_LEVEL
                } else {
                    level
                };
                l as usize
            },
            _ => 0,
        }
    }

    pub fn height_anchor(self) -> (a: HeightAnchor)
        ensures
            a == (if self == AttackKind::Thin {
                HeightAnchor::Bottom
            } else {
                HeightAnchor::Top
            }),
    {
        match self {
            AttackKind::Thin => HeightAnchor::Bottom,
            _ => HeightAnchor::Top,
        }
    }

    /// True when the swing comes out of both sides at once.
    pub fn two_sided(self) -> (b: bool)
        ensures
            b == (self == AttackKind::Thin),
    {
        matches!(self, AttackKind::Thin)
    }

    /// True when one swing may only hit a given enemy once.
    pub fn once_per_enemy(self) -> (b: bool)
        ensures
            b == (self == AttackKind::Hammer || self == AttackKind::SingleHit),
    {
        matches!(self, AttackKind::Hammer | AttackKind::SingleHit)
    }

    /// True when the swing puts something into the world instead of holding a
    /// box on the player.
    pub fn detached(self) -> (b: bool)
        ensures
            b == spec_detached(self),
    {
        matches!(self, AttackKind::Bullet | AttackKind::Frozen)
    }
}

} // verus!

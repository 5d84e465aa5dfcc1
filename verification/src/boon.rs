//! Standing upgrades that are not weapons.
//!
//! An attack is exclusive - carrying one means not carrying the rest, and
//! swapping costs whatever level the old one had reached. A boon is nothing
//! like that: it is kept, it costs nothing to take, and it never comes up
//! again. What keeps that from swallowing the weapon roster is that the pool
//! drains: three boons exist, and once they are held the offer has nothing left
//! to give but weapons.
use vstd::prelude::*;

verus! {

/// Ticks between one absorbed hit and the next: one second of the fixed clock.
///
/// A second is long against a single enemy and short against a crowd, which is
/// the right way round: it caps how fast a swarm can chew through the player
/// without doing much for someone taking one hit at a time.
pub const SHIELD_COOLDOWN_TICKS: i64 = 60;

/// What the wall does to everything on the field when it goes up, beyond
/// standing there.
///
/// The two are one setting rather than two switches, because a wall cannot pull
/// and push at once. Taking one replaces the other.
#[derive(Clone, Copy, Debug, PartialEq, Eq, Structural)]
pub enum WallMod {
    Plain,
    /// Black. Drags every enemy toward the player who raised it.
    Pull,
    /// Grey. Throws every enemy away from them.
    Push,
}

impl Default for WallMod {
    fn default() -> (w: Self)
        ensures
            w == WallMod::Plain,
    {
        WallMod::Plain
    }
}

#[derive(Clone, Copy, Debug, PartialEq, Eq, Structural)]
pub enum Boon {
    /// One jump in the air, back after the next landing.
    DoubleJump,
    /// The dash keeps only its energy price.
    DashFree,
    /// Absorbs one touch, then waits [`SHIELD_COOLDOWN_TICKS`].
    Shield,
    /// The wall turns black and gathers the field in.
    WallPull,
    /// The wall turns grey and clears the field out.
    WallPush,
}

pub open spec fn spec_boon_label(boon: Boon) -> Seq<char> {
    match boon {
        Boon::DoubleJump => "DOUBLE JUMP"@,
        Boon::DashFree => "FREE DASH"@,
        Boon::Shield => "SHIELD"@,
        Boon::WallPull => "BLACK WALL"@,
        Boon::WallPush => "GREY WALL"@,
    }
}

impl Boon {
    pub const ALL: [Boon; 5] = [
        Boon::DoubleJump,
        Boon::DashFree,
        Boon::Shield,
        Boon::WallPull,
        Boon::WallPush,
    ];

    pub fn label(self) -> (s: &'static str)
        ensures
            s@ == spec_boon_label(self),
    {
        match self {
            Boon::DoubleJump => "DOUBLE JUMP",
            Boon::DashFree => "FREE DASH",
            Boon::Shield => "SHIELD",
            Boon::WallPull => "BLACK WALL",
            Boon::WallPush => "GREY WALL",
        }
    }
}

/// Which boons a run is carrying. Held per player, but taken together: the
/// offer is shared, so what one takes everyone gets.
#[derive(Clone, Copy, Debug, PartialEq, Eq, Structural)]
pub struct Boons {
    pub double_jump: bool,
    pub dash_free: bool,
    pub shield: bool,
    pub wall: WallMod,
}

/// Nothing held.
pub open spec fn no_boons() -> Boons {
    Boons { double_jump: false, dash_free: false, shield: false, wall: WallMod::Plain }
}

pub open spec fn spec_has(b: Boons, boon: Boon) -> bool {
    match boon {
        Boon::DoubleJump => b.double_jump,
        Boon::DashFree => b.dash_free,
        Boon::Shield => b.shield,
        Boon::WallPull => b.wall == WallMod::Pull,
        Boon::WallPush => b.wall == WallMod::Push,
    }
}

pub open spec fn spec_take(b: Boons, boon: Boon) -> Boons {
    match boon {
        Boon::DoubleJump => Boons { double_jump: true, ..b },
        Boon::DashFree => Boons { dash_free: true, ..b },
        Boon::Shield => Boons { shield: true, ..b },
        Boon::WallPull => Boons { wall: WallMod::Pull, ..b },
        Boon::WallPush => Boons { wall: WallMod::Push, ..b },
    }
}

impl Default for Boons {
    fn default() -> (b: Self)
        ensures
            b == no_boons(),
    {
        Boons { double_jump: false, dash_free: false, shield: false, wall: WallMod::Plain }
    }
}

impl Boons {
    pub fn has(&self, boon: Boon) -> (r: bool)
        ensures
            r == spec_has(*self, boon),
    {
        match boon {
            Boon::DoubleJump => self.double_jump,
            Boon::DashFree => self.dash_free,
            Boon::Shield => self.shield,
            Boon::WallPull => self.wall == WallMod::Pull,
            Boon::WallPush => self.wall == WallMod::Push,
        }
    }

    pub fn take(&mut self, boon: Boon)
        ensures
            *final(self) == spec_take(*old(self), boon),
    {
        match boon {
            Boon::DoubleJump => self.double_jump = true,
            Boon::DashFree => self.dash_free = true,
            Boon::Shield => self.shield = true,
            // Assignment, not accumulation: the other one stops being true by
            // the same stroke, which is what makes the pair a choice.
            Boon::WallPull => self.wall = WallMod::Pull,
            Boon::WallPush => self.wall = WallMod::Push,
        }
    }
}

/// Taking a boon means holding it, and leaves every other boon as it was -
/// except that the two walls replace each other: taking one drops the other.
pub proof fn lemma_take_then_has(b: Boons, taken: Boon, other: Boon)
    ensures
        spec_has(spec_take(b, taken), taken),
        other != taken && !((taken == Boon::WallPull || taken == Boon::WallPush) && (other
            == Boon::WallPull || other == Boon::WallPush)) ==> spec_has(spec_take(b, taken), other)
            == spec_has(b, other),
        taken == Boon::WallPull ==> !spec_has(spec_take(b, taken), Boon::WallPush),
        taken == Boon::WallPush ==> !spec_has(spec_take(b, taken), Boon::WallPull),
{
}

/// Taking a boon twice is taking it once.
pub proof fn lemma_take_is_idempotent(b: Boons, boon: Boon)
    ensures
        spec_take(spec_take(b, boon), boon) == spec_take(b, boon),
{
}

} // verus!

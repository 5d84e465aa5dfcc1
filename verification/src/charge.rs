//! The energy bar and the wall charges it fills, and what the game pays out.
//!
//! Energy comes from hits and kills; a full bar becomes a charge. A charge
//! raises the wall, buys a moment of cover, or pays for a dash the bar alone
//! cannot. Each charge spent makes the next one dearer, so spending and
//! breaking one are priced the same way.
use vstd::prelude::*;

use crate::config::DASH_COST_DIVISOR;
use crate::rounding::{round_to_float_precision, to_float_precision};

verus! {

/// Score for a hit on something on the ground that does not kill it.
pub const HIT_REWARD: i64 = 3;
/// Score for killing something on the ground that is not a boss.
pub const KILL_REWARD: i64 = 6;
/// A flyer is harder to reach and pays double, for a hit and for a kill.
pub const FLYER_HIT_REWARD: i64 = 6;
pub const FLYER_KILL_REWARD: i64 = 12;
/// A boss pays this much per wave number.
pub const BOSS_REWARD_PER_WAVE: i64 = 100;
/// Score for filling the bar.
pub const BANK_REWARD: i64 = 2;

/// The bar's size for the next charge: `25 + 10 * wave` times half the
/// charges held and spent since the last one was banked, computed as 32-bit
/// floats compute it - each factor and the product held to 24 significant
/// bits, ties to even - cut to a whole number, and never nothing. A count that
/// does not fit in 64 bits gives the largest bar there is.
pub open spec fn spec_energy_needed(wave: int, charges: int, attacks: int) -> int {
    let a = 25 + wave * 10;
    let b = charges + attacks;
    if a < i64::MIN || a > i64::MAX || b < i64::MIN || b > i64::MAX {
        i64::MAX as int
    } else if a == 0 || b == 0 || (a < 0) != (b < 0) {
        1
    } else {
        let ma = if a < 0 { -a } else { a };
        let mb = if b < 0 { -b } else { b };
        let raw = (to_float_precision((to_float_precision(ma as nat) * to_float_precision(mb as nat)) as nat) as int)
            / 2;
        if raw < 1 {
            1
        } else if raw > i64::MAX {
            i64::MAX as int
        } else {
            raw
        }
    }
}

/// A third of a bar, rounded up, so a dash is never free.
pub open spec fn spec_dash_cost(needed: int) -> int {
    let c = (needed + DASH_COST_DIVISOR - 1) / (DASH_COST_DIVISOR as int);
    if c < 1 {
        1
    } else {
        c
    }
}

/// What killing something pays: a boss scales with the wave; anything else,
/// runts and splitter young included, pays the flat rate for its kind.
pub open spec fn spec_kill_reward(is_boss: bool, flying: bool, wave: int) -> int {
    if is_boss {
        BOSS_REWARD_PER_WAVE * wave
    } else if flying {
        FLYER_KILL_REWARD as int
    } else {
        KILL_REWARD as int
    }
}

pub fn energy_needed(wave: i64, charges: i64, attacks: i64) -> (n: i64)
    ensures
        n == spec_energy_needed(wave as int, charges as int, attacks as int),
        n >= 1,
{
    let a: i128 = 25 + wave as i128 * 10;
    let b: i128 = charges as i128 + attacks as i128;
    if a < i64::MIN as i128 || a > i64::MAX as i128 || b < i64::MIN as i128 || b > i64::MAX as i128 {
        return i64::MAX;
    }
    if a == 0 || b == 0 || (a < 0) != (b < 0) {
        return 1;
    }
    let ma: u128 = if a < 0 { (-a) as u128 } else { a as u128 };
    let mb: u128 = if b < 0 { (-b) as u128 } else { b as u128 };
    let fa = round_to_float_precision(ma);
    let fb = round_to_float_precision(mb);
    assert(fa * fb < 0x8000_0000_0000_0000_0000_0000_0000_0000) by (nonlinear_arith)
        requires
            fa <= ma + ma / 0x80_0000,
            fb <= mb + mb / 0x80_0000,
            ma <= 0x8000_0000_0000_0000,
            mb <= 0x8000_0000_0000_0000,
    ;
    let product = round_to_float_precision(fa * fb);
    let raw = product / 2;
    if raw < 1 {
        1
    } else if raw > i64::MAX as u128 {
        i64::MAX
    } else {
        raw as i64
    }
}

pub fn dash_cost(needed: i64) -> (c: i64)
    ensures
        c == spec_dash_cost(needed as int),
        c >= 1,
{
    let c: i128 = (needed as i128 + DASH_COST_DIVISOR as i128 - 1) / DASH_COST_DIVISOR as i128;
    if c < 1 {
        1
    } else {
        c as i64
    }
}

pub fn kill_reward(is_boss: bool, flying: bool, wave: i64) -> (r: i64)
    requires
        is_boss ==> i64::MIN <= BOSS_REWARD_PER_WAVE * wave <= i64::MAX,
    ensures
        r == spec_kill_reward(is_boss, flying, wave as int),
{
    if is_boss {
        BOSS_REWARD_PER_WAVE * wave
    } else if flying {
        FLYER_KILL_REWARD
    } else {
        KILL_REWARD
    }
}

/// What a hit that does not kill pays.
pub fn hit_reward(flying: bool) -> (r: i64)
    ensures
        r == (if flying { FLYER_HIT_REWARD } else { HIT_REWARD }),
{
    if flying {
        FLYER_HIT_REWARD
    } else {
        HIT_REWARD
    }
}

/// A charge spent, if one is held: it moves from held to spent. The flag says
/// whether there was one.
pub open spec fn spec_spend(c: Charges) -> (Charges, bool) {
    if c.super_charges > 0 {
        (
            Charges {
                super_charges: (c.super_charges - 1) as i64,
                attacks_since_power_up: (c.attacks_since_power_up + 1) as i64,
                ..c
            },
            true,
        )
    } else {
        (c, false)
    }
}

/// A dash paid for out of the bar, or out of a broken charge when the bar is
/// short. The flag says whether either could pay; when neither can, nothing
/// is taken.
pub open spec fn spec_pay_for_dash(c: Charges, wave: int) -> (Charges, bool) {
    let needed = c.needed(wave);
    let cost = spec_dash_cost(needed);
    if c.energy >= cost {
        (Charges { energy: (c.energy - cost) as i64, ..c }, true)
    } else if c.super_charges > 0 {
        (
            Charges {
                energy: (if c.energy + needed - cost < 0 { 0 } else { c.energy + needed - cost }) as i64,
                super_charges: (c.super_charges - 1) as i64,
                attacks_since_power_up: (c.attacks_since_power_up + 1) as i64,
            },
            true,
        )
    } else {
        (c, false)
    }
}

/// A player's bar and charges.
#[derive(Clone, Copy, Debug, PartialEq, Eq, Structural)]
pub struct Charges {
    pub energy: i64,
    pub super_charges: i64,
    /// Charges spent since the last one was banked; each makes the next dearer.
    pub attacks_since_power_up: i64,
}

impl Charges {
    pub open spec fn needed(self, wave: int) -> int {
        spec_energy_needed(wave, self.super_charges as int, self.attacks_since_power_up as int)
    }

    /// Spends a charge, if one is held, on the wall or on cover.
    pub fn spend(&mut self) -> (spent: bool)
        requires
            old(self).attacks_since_power_up < i64::MAX,
        ensures
            spent == (old(self).super_charges > 0),
            spent ==> *final(self) == (Charges {
                super_charges: (old(self).super_charges - 1) as i64,
                attacks_since_power_up: (old(self).attacks_since_power_up + 1) as i64,
                ..*old(self)
            }),
            !spent ==> *final(self) == *old(self),
            (*final(self), spent) == spec_spend(*old(self)),
    {
        if self.super_charges > 0 {
            self.super_charges = self.super_charges - 1;
            self.attacks_since_power_up = self.attacks_since_power_up + 1;
            true
        } else {
            false
        }
    }

    /// A charge for living through a wave.
    pub fn survive_wave(&mut self)
        requires
            old(self).super_charges < i64::MAX,
        ensures
            *final(self) == (Charges { super_charges: (old(self).super_charges + 1) as i64, ..*old(self) }),
    {
        self.super_charges = self.super_charges + 1;
    }

    /// Turns a full bar into a charge. Returns whether it did.
    pub fn bank(&mut self, wave: i64) -> (banked: bool)
        requires
            old(self).super_charges < i64::MAX,
        ensures
            banked == (old(self).energy >= old(self).needed(wave as int)),
            banked ==> *final(self) == (Charges {
                energy: (old(self).energy - old(self).needed(wave as int)) as i64,
                super_charges: (old(self).super_charges + 1) as i64,
                attacks_since_power_up: 0,
            }),
            !banked ==> *final(self) == *old(self),
    {
        let needed = energy_needed(wave, self.super_charges, self.attacks_since_power_up);
        if self.energy >= needed {
            self.energy = self.energy - needed;
            self.attacks_since_power_up = 0;
            self.super_charges = self.super_charges + 1;
            true
        } else {
            false
        }
    }

    /// Takes the price of a dash out of the bar, breaking a charge if the bar
    /// is short. Returns false, with nothing taken, when neither can pay.
    ///
    /// Breaking a charge counts as spending one, exactly as the wall does; the
    /// charge is worth a full bar, and the dash comes out of the change.
    pub fn pay_for_dash(&mut self, wave: i64) -> (paid: bool)
        requires
            old(self).attacks_since_power_up < i64::MAX,
        ensures
            ({
                let o = *old(self);
                let needed = o.needed(wave as int);
                let cost = spec_dash_cost(needed);
                &&& paid == (o.energy >= cost || o.super_charges > 0)
                &&& o.energy >= cost ==> *final(self) == (Charges { energy: (o.energy - cost) as i64, ..o })
                &&& o.energy < cost && o.super_charges > 0 ==> *final(self) == (Charges {
                    energy: (if o.energy + needed - cost < 0 { 0 } else { o.energy + needed - cost }) as i64,
                    super_charges: (o.super_charges - 1) as i64,
                    attacks_since_power_up: (o.attacks_since_power_up + 1) as i64,
                })
                &&& !paid ==> *final(self) == o
            }),
            (*final(self), paid) == spec_pay_for_dash(*old(self), wave as int),
    {
        let needed = energy_needed(wave, self.super_charges, self.attacks_since_power_up);
        let cost = dash_cost(needed);
        if self.energy >= cost {
            self.energy = self.energy - cost;
            return true;
        }
        if self.super_charges > 0 {
            self.super_charges = self.super_charges - 1;
            self.attacks_since_power_up = self.attacks_since_power_up + 1;
            // Less than a full bar, since the bar alone could not pay.
            let change: i128 = self.energy as i128 + needed as i128 - cost as i128;
            self.energy = if change < 0 { 0 } else { change as i64 };
            return true;
        }
        false
    }
}

/// Spending a charge, or breaking one to pay for a dash, leaves the next
/// charge exactly as dear as it was: the charge moves from held to spent, and
/// both count the same towards the price.
pub proof fn lemma_spending_keeps_the_price(c: Charges, wave: int)
    requires
        c.super_charges > 0,
    ensures
        (Charges {
            super_charges: (c.super_charges - 1) as i64,
            attacks_since_power_up: (c.attacks_since_power_up + 1) as i64,
            ..c
        }).needed(wave) == c.needed(wave) || c.attacks_since_power_up == i64::MAX,
{
}

/// A dash never costs more than the bar it is a third of, and never nothing.
pub proof fn lemma_dash_cost_is_a_third(needed: int)
    requires
        needed >= 1,
    ensures
        1 <= spec_dash_cost(needed) <= needed,
        3 * spec_dash_cost(needed) >= needed,
{
}

} // verus!

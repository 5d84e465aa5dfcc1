//! Enemies built by rolling dice instead of being picked off a list.
//!
//! The named variants are ten fixed points in a space the enemy struct could
//! always describe. With movement split from behaviour that space is open, and
//! this is what walks it: a [`Recipe`] names a way of moving, a size and a set
//! of behaviours, and a frontend's simulation builds the enemy from it.
//!
//! Nothing here replaces the roster. A rolled enemy is a *tenth* source on top
//! of it, so the player still learns nine legible things and meets the strange
//! ones as occasions.
use vstd::prelude::*;

use crate::config::{JUMPER_JUMP_EVERY, LEAPER_CROUCH_TICKS, SHEDDER_HUSKS, SHOOTER_FIRE_EVERY};
use crate::entities::{Behaviors, Leap, Movement};
use crate::rng::{float_unit_value, range_state, range_value, xorshift, Rng, UNIT_DENOMINATOR};
use crate::rounding::{round_to_float_precision, to_float_precision};

pub mod unlock;

verus! {

/// Paid per wave when one goes down.
pub const ELITE_REWARD_PER_WAVE: i64 = 50;

/// Most young one blow can produce.
pub const BROOD_MAX: i32 = 3;

/// Chance each behaviour is rolled in: 0.45, as a 32-bit float holds it
/// (7549747 / 2^24), over [`UNIT_DENOMINATOR`]. Independent, so a plain
/// elite - heavy and nothing else - is a perfectly ordinary outcome.
pub const BEHAVIOUR_CHANCE: u64 = 4053239557259264;

/// Chance it throws out young when struck: a quarter, over
/// [`UNIT_DENOMINATOR`]. Rarer than the rest because it is the one trait that
/// answers a hit with more enemies rather than with a different enemy.
pub const BROOD_CHANCE: u64 = 0x8_0000_0000_0000;

/// How an elite gets about.
#[derive(Clone, Copy, Debug, PartialEq, Eq, Structural)]
pub enum MoveKind {
    Run,
    Hop,
    Leap,
    Fly,
}

/// Independent of how it moves: a flier can be the size of a boss, and a runner
/// the size of a flyer.
#[derive(Clone, Copy, Debug, PartialEq, Eq, Structural)]
pub enum Size {
    Large,
    Normal,
    Small,
    /// The footprint of an ordinary flyer - as wide as a player, half as tall.
    Flyer,
}

pub open spec fn spec_move_label(m: MoveKind) -> Seq<char> {
    match m {
        MoveKind::Run => "RUNNER"@,
        MoveKind::Hop => "HOPPER"@,
        MoveKind::Leap => "LEAPER"@,
        MoveKind::Fly => "FLIER"@,
    }
}

pub open spec fn spec_size_label(s: Size) -> Seq<char> {
    match s {
        Size::Large => "HUGE"@,
        Size::Normal => ""@,
        Size::Small => "SMALL"@,
        Size::Flyer => "SLIGHT"@,
    }
}

impl MoveKind {
    pub const ALL: [MoveKind; 4] = [MoveKind::Run, MoveKind::Hop, MoveKind::Leap, MoveKind::Fly];

    pub fn label(self) -> (s: &'static str)
        ensures
            s@ == spec_move_label(self),
    {
        match self {
            MoveKind::Run => "RUNNER",
            MoveKind::Hop => "HOPPER",
            MoveKind::Leap => "LEAPER",
            MoveKind::Fly => "FLIER",
        }
    }
}

impl Size {
    pub const ALL: [Size; 4] = [Size::Large, Size::Normal, Size::Small, Size::Flyer];

    pub fn label(self) -> (s: &'static str)
        ensures
            s@ == spec_size_label(self),
    {
        match self {
            Size::Large => "HUGE",
            Size::Normal => "",
            Size::Small => "SMALL",
            Size::Flyer => "SLIGHT",
        }
    }
}

/// Anything with a wave it becomes available on.
pub trait Unlockable {
    spec fn unlock_wave(self) -> int;

    fn min_wave(self) -> (w: i64)
        ensures
            w == self.unlock_wave(),
    ;
}

impl Unlockable for MoveKind {
    open spec fn unlock_wave(self) -> int {
        match self {
            MoveKind::Run => unlock::RUN as int,
            MoveKind::Hop => unlock::HOP as int,
            MoveKind::Leap => unlock::LEAP as int,
            MoveKind::Fly => unlock::FLY as int,
        }
    }

    fn min_wave(self) -> (w: i64) {
        match self {
            MoveKind::Run => unlock::RUN,
            MoveKind::Hop => unlock::HOP,
            MoveKind::Leap => unlock::LEAP,
            MoveKind::Fly => unlock::FLY,
        }
    }
}

impl Unlockable for Size {
    open spec fn unlock_wave(self) -> int {
        match self {
            Size::Large => unlock::LARGE as int,
            Size::Normal => unlock::NORMAL as int,
            Size::Small => unlock::SMALL as int,
            Size::Flyer => unlock::FLYER_SIZED as int,
        }
    }

    fn min_wave(self) -> (w: i64) {
        match self {
            Size::Large => unlock::LARGE,
            Size::Normal => unlock::NORMAL,
            Size::Small => unlock::SMALL,
            Size::Flyer => unlock::FLYER_SIZED,
        }
    }
}

/// How many of the first `n` entries of `all` that `wave` has reached.
pub open spec fn open_before<T: Unlockable>(all: Seq<T>, wave: int, n: int) -> int
    decreases n,
{
    if n <= 0 {
        0
    } else {
        open_before(all, wave, n - 1) + if wave >= all[n - 1].unlock_wave() {
            1int
        } else {
            0
        }
    }
}

/// The reached entry of `all` with `want` reached entries before it, looking
/// from position `i`.
pub open spec fn nth_open_from<T: Unlockable>(all: Seq<T>, wave: int, want: int, i: int) -> Option<T>
    decreases all.len() - i,
{
    if i >= all.len() || i < 0 {
        None
    } else if wave >= all[i].unlock_wave() && open_before(all, wave, i) == want {
        Some(all[i])
    } else {
        nth_open_from(all, wave, want, i + 1)
    }
}

/// What `pick` returns for a draw of `u / 2^53`: the entry that fraction of
/// the way through the reached ones, the fraction scaled at the precision of a
/// 32-bit float and then cut to a whole position, or `fallback` when none is
/// reached.
pub open spec fn pick_result<T: Unlockable>(all: Seq<T>, wave: int, fallback: T, u: int) -> T {
    let open = open_before(all, wave, all.len() as int);
    if open == 0 {
        fallback
    } else {
        let scaled = (to_float_precision((u * open) as nat) as int) / (UNIT_DENOMINATOR as int);
        let want = if scaled > open - 1 { open - 1 } else { scaled };
        match nth_open_from(all, wave, want, 0) {
            Some(t) => t,
            None => fallback,
        }
    }
}

proof fn lemma_open_before_bounded<T: Unlockable>(all: Seq<T>, wave: int, n: int)
    ensures
        0 <= open_before(all, wave, n),
        n >= 0 ==> open_before(all, wave, n) <= n,
    decreases n,
{
    if n > 0 {
        lemma_open_before_bounded(all, wave, n - 1);
    }
}

/// Anything `nth_open_from` finds has been reached.
proof fn lemma_nth_open_is_reached<T: Unlockable>(all: Seq<T>, wave: int, want: int, i: int)
    ensures
        nth_open_from(all, wave, want, i) matches Some(t) ==> wave >= t.unlock_wave(),
    decreases all.len() - i,
{
    if 0 <= i < all.len() {
        lemma_nth_open_is_reached(all, wave, want, i + 1);
    }
}

/// A pick is the fallback or something `wave` has reached.
pub proof fn lemma_pick_is_reached<T: Unlockable>(all: Seq<T>, wave: int, fallback: T, u: int)
    ensures
        pick_result(all, wave, fallback, u) == fallback || wave >= pick_result(
            all,
            wave,
            fallback,
            u,
        ).unlock_wave(),
{
    let open = open_before(all, wave, all.len() as int);
    if open != 0 {
        let scaled = (to_float_precision((u * open) as nat) as int) / (UNIT_DENOMINATOR as int);
        let want = if scaled > open - 1 { open - 1 } else { scaled };
        lemma_nth_open_is_reached(all, wave, want, 0);
    }
}

/// One of `all` that `wave` has reached, or `fallback` if it has reached none.
///
/// The draw is taken whatever the wave allows, so a trait being shut does not
/// shift the stream the rest of the run draws from.
fn pick<T: Copy + Unlockable>(all: &[T], wave: i64, fallback: T, rng: &mut Rng) -> (t: T)
    ensures
        t == pick_result(all@, wave as int, fallback, float_unit_value(old(rng)@)),
        final(rng)@ == xorshift(old(rng)@),
{
    let mut open: usize = 0;
    let mut i: usize = 0;
    while i < all.len()
        invariant
            i <= all@.len(),
            open == open_before(all@, wave as int, i as int),
        decreases all@.len() - i,
    {
        proof {
            lemma_open_before_bounded(all@, wave as int, i as int);
        }
        if wave >= all[i].min_wave() {
            open = open + 1;
        }
        i += 1;
    }
    let roll = rng.unit();
    if open == 0 {
        return fallback;
    }
    proof {
        lemma_open_before_bounded(all@, wave as int, all@.len() as int);
        assert(0 <= (roll as int) * (open as int) < 0x4000_0000_0000_0000_0000_0000_0000_0000) by (nonlinear_arith)
            requires
                roll < 2 * UNIT_DENOMINATOR,
                1 <= open <= usize::MAX,
        ;
    }
    let float_scaled = round_to_float_precision((roll as u128) * (open as u128));
    let scaled = float_scaled / (UNIT_DENOMINATOR as u128);
    let want: usize = if scaled > (open - 1) as u128 {
        open - 1
    } else {
        scaled as usize
    };
    let ghost found = nth_open_from(all@, wave as int, want as int, 0);
    assert(pick_result(all@, wave as int, fallback, float_unit_value(old(rng)@)) == match found {
        Some(t) => t,
        None => fallback,
    });
    let mut seen: usize = 0;
    let mut j: usize = 0;
    while j < all.len()
        invariant
            j <= all@.len(),
            rng@ == xorshift(old(rng)@),
            pick_result(all@, wave as int, fallback, float_unit_value(old(rng)@)) == match found {
                Some(t) => t,
                None => fallback,
            },
            found == nth_open_from(all@, wave as int, want as int, 0),
            seen == open_before(all@, wave as int, j as int),
            nth_open_from(all@, wave as int, want as int, 0) == nth_open_from(
                all@,
                wave as int,
                want as int,
                j as int,
            ),
        decreases all@.len() - j,
    {
        proof {
            lemma_open_before_bounded(all@, wave as int, j as int);
        }
        if wave >= all[j].min_wave() {
            if seen == want {
                return all[j];
            }
            seen = seen + 1;
        }
        j += 1;
    }
    fallback
}

/// One rolled enemy, before it is built.
#[derive(Clone, Copy, Debug, PartialEq, Eq, Structural)]
pub struct Recipe {
    pub movement: MoveKind,
    pub size: Size,
    pub shoot: bool,
    pub blink: bool,
    pub shed: bool,
    /// Answers every blow it survives with young, built by rolling in turn.
    /// Theirs never carry it: a brood that broods is not a fight, it is a
    /// division that never stops.
    pub brood: bool,
}

/// The whole-number side of the enemy a recipe builds: how it moves, what it
/// does beyond walking, what killing it pays, how many hazards it keeps down,
/// and whether it answers blows with young.
#[derive(Clone, Copy, Debug, PartialEq, Eq, Structural)]
pub struct Traits {
    pub movement: Movement,
    pub behaviors: Behaviors,
    pub reward: i64,
    pub max_husks: usize,
    pub broods: bool,
}

/// Where in the flight wave a rolled flyer starts: this many ticks back, at
/// most.
pub const FLY_PHASE_SPREAD: i32 = 314;

/// What `Recipe::traits` builds for `wave` at `timer` from state `s`, and the
/// state after its draws: a hopper's first hop and a flyer's phase are drawn,
/// then a shooter's first shot, each clock somewhere within its period so a
/// group does not act in step. The reward is a flat sum per wave, the first
/// wave's for anything earlier.
pub open spec fn spec_traits(r: Recipe, wave: int, timer: int, s: u64) -> (Traits, u64) {
    let (movement, s1) = match r.movement {
        MoveKind::Run => (Movement::Run, s),
        MoveKind::Hop => (
            Movement::Hop { cooldown: range_value(s, 0, JUMPER_JUMP_EVERY) as i32 },
            range_state(s, 0, JUMPER_JUMP_EVERY),
        ),
        MoveKind::Leap => (Movement::Leap(Leap { crouch: LEAPER_CROUCH_TICKS, airborne: false }), s),
        MoveKind::Fly => (
            Movement::Fly { offset: (timer - range_value(s, 0, FLY_PHASE_SPREAD)) as i64 },
            range_state(s, 0, FLY_PHASE_SPREAD),
        ),
    };
    let (shoot, s2) = if r.shoot {
        (Some(range_value(s1, 0, SHOOTER_FIRE_EVERY) as i32), range_state(s1, 0, SHOOTER_FIRE_EVERY))
    } else {
        (None, s1)
    };
    (
        Traits {
            movement,
            behaviors: Behaviors { shoot, blink: r.blink, shed: r.shed },
            reward: (ELITE_REWARD_PER_WAVE * (if wave < 1 { 1 } else { wave })) as i64,
            max_husks: if r.shed { SHEDDER_HUSKS } else { 0 },
            broods: r.brood,
        },
        s2,
    )
}

/// A draw of `u / 2^53` falls under a chance of `chance / 2^53`.
pub open spec fn under_chance(u: int, chance: int) -> bool {
    u < chance
}

/// The recipe `Recipe::roll` draws for `wave` from state `s`, and the state
/// after its six draws.
pub open spec fn recipe_roll(wave: int, s: u64) -> (Recipe, u64) {
    let s1 = xorshift(s);
    let s2 = xorshift(s1);
    let s3 = xorshift(s2);
    let s4 = xorshift(s3);
    let s5 = xorshift(s4);
    let s6 = xorshift(s5);
    (
        Recipe {
            movement: pick_result(MoveKind::ALL@, wave, MoveKind::Run, float_unit_value(s)),
            size: pick_result(Size::ALL@, wave, Size::Normal, float_unit_value(s1)),
            shoot: under_chance(float_unit_value(s2), BEHAVIOUR_CHANCE as int) && wave >= unlock::SHOOT,
            blink: under_chance(float_unit_value(s3), BEHAVIOUR_CHANCE as int) && wave >= unlock::BLINK,
            shed: under_chance(float_unit_value(s4), BEHAVIOUR_CHANCE as int) && wave >= unlock::SHED,
            brood: under_chance(float_unit_value(s5), BROOD_CHANCE as int) && wave >= unlock::BROOD,
        },
        s6,
    )
}

/// Every trait a recipe carries has been introduced by `wave`: a rolled enemy
/// is read against the roster the player has already met.
pub open spec fn only_what_was_met(r: Recipe, wave: int) -> bool {
    &&& r.movement == MoveKind::Hop ==> wave >= unlock::HOP
    &&& r.movement == MoveKind::Leap ==> wave >= unlock::LEAP
    &&& r.size == Size::Large ==> wave >= unlock::LARGE
    &&& r.size == Size::Small ==> wave >= unlock::SMALL
    &&& r.shoot ==> wave >= unlock::SHOOT
    &&& r.blink ==> wave >= unlock::BLINK
    &&& r.shed ==> wave >= unlock::SHED
    &&& r.brood ==> wave >= unlock::BROOD
}

/// A word of the label for a behaviour the recipe carries.
pub open spec fn word_if(on: bool, word: Seq<char>) -> Seq<char> {
    if on {
        " "@ + word
    } else {
        Seq::empty()
    }
}

/// The name a recipe is announced under: its size when it has one, how it
/// moves, then each behaviour it carries.
pub open spec fn spec_recipe_label(r: Recipe) -> Seq<char> {
    let size = spec_size_label(r.size);
    let head = if size.len() == 0 {
        Seq::<char>::empty()
    } else {
        size + " "@
    };
    head + spec_move_label(r.movement) + word_if(r.shoot, "GUN"@) + word_if(r.blink, "BLINK"@)
        + word_if(r.shed, "TRAP"@) + word_if(r.brood, "BROOD"@)
}

/// A heavy is announced by everything it carries: its name is the name of
/// the same heavy with no behaviours at all, followed by a word for each
/// behaviour it does carry, in the order GUN, BLINK, TRAP, BROOD, and no word
/// for one it does not.
pub proof fn lemma_label_names_every_behaviour(r: Recipe)
    ensures
        spec_recipe_label(r) == spec_recipe_label(Recipe { shoot: false, blink: false, shed: false, brood: false, ..r })
            + (if r.shoot {
            " "@ + "GUN"@
        } else {
            Seq::<char>::empty()
        }) + (if r.blink {
            " "@ + "BLINK"@
        } else {
            Seq::<char>::empty()
        }) + (if r.shed {
            " "@ + "TRAP"@
        } else {
            Seq::<char>::empty()
        }) + (if r.brood {
            " "@ + "BROOD"@
        } else {
            Seq::<char>::empty()
        }),
{
    let base = Recipe { shoot: false, blink: false, shed: false, brood: false, ..r };
    let size = spec_size_label(r.size);
    let head = if size.len() == 0 {
        Seq::<char>::empty()
    } else {
        size + " "@
    };
    let stem = head + spec_move_label(r.movement);
    assert(spec_recipe_label(base) =~= stem);
    let g = word_if(r.shoot, "GUN"@);
    let b = word_if(r.blink, "BLINK"@);
    let t = word_if(r.shed, "TRAP"@);
    let o = word_if(r.brood, "BROOD"@);
    assert(spec_recipe_label(r) == stem + g + b + t + o);
}

fn push_word(out: &mut String, on: bool, word: &str)
    ensures
        final(out)@ == old(out)@ + word_if(on, word@),
{
    if on {
        out.append(" ");
        proof {
            reveal_strlit(" ");
        }
        out.append(word);
    }
}

impl Recipe {
    /// Draws a combination out of what `wave` has already introduced.
    ///
    /// Every draw happens whatever the wave allows, so a trait being shut does
    /// not shift the stream the rest of the run draws from.
    pub fn roll(wave: i64, rng: &mut Rng) -> (r: Self)
        ensures
            (r, final(rng)@) == recipe_roll(wave as int, old(rng)@),
            only_what_was_met(r, wave as int),
    {
        let ghost s0 = rng@;
        let movement = pick(&MoveKind::ALL, wave, MoveKind::Run, rng);
        let size = pick(&Size::ALL, wave, Size::Normal, rng);
        let shoot = rng.unit() < BEHAVIOUR_CHANCE && wave >= unlock::SHOOT;
        let blink = rng.unit() < BEHAVIOUR_CHANCE && wave >= unlock::BLINK;
        let shed = rng.unit() < BEHAVIOUR_CHANCE && wave >= unlock::SHED;
        let brood = rng.unit() < BROOD_CHANCE && wave >= unlock::BROOD;
        proof {
            lemma_pick_is_reached(MoveKind::ALL@, wave as int, MoveKind::Run, float_unit_value(s0));
            lemma_pick_is_reached(Size::ALL@, wave as int, Size::Normal, float_unit_value(xorshift(s0)));
        }
        Self { movement, size, shoot, blink, shed, brood }
    }

    /// The whole-number traits of the enemy this recipe describes.
    pub fn traits(&self, wave: i64, timer: i64, rng: &mut Rng) -> (t: Traits)
        requires
            wave <= i64::MAX / ELITE_REWARD_PER_WAVE,
            timer >= i64::MIN + FLY_PHASE_SPREAD,
        ensures
            (t, final(rng)@) == spec_traits(*self, wave as int, timer as int, old(rng)@),
    {
        let movement = match self.movement {
            MoveKind::Run => Movement::Run,
            MoveKind::Hop => Movement::Hop { cooldown: rng.range(0, JUMPER_JUMP_EVERY) },
            MoveKind::Leap => Movement::Leap(Leap { crouch: LEAPER_CROUCH_TICKS, airborne: false }),
            MoveKind::Fly => Movement::Fly { offset: timer - rng.range(0, FLY_PHASE_SPREAD) as i64 },
        };
        let shoot = if self.shoot {
            Some(rng.range(0, SHOOTER_FIRE_EVERY))
        } else {
            None
        };
        Traits {
            movement,
            behaviors: Behaviors { shoot, blink: self.blink, shed: self.shed },
            reward: ELITE_REWARD_PER_WAVE * (if wave < 1 { 1 } else { wave }),
            max_husks: if self.shed { SHEDDER_HUSKS } else { 0 },
            broods: self.brood,
        }
    }

    /// What to call it, for anything that wants to say so on screen.
    ///
    /// Movement first because it is what the player reads first - the thing is
    /// across the field before its tricks show.
    pub fn label(&self) -> (s: String)
        ensures
            s@ == spec_recipe_label(*self),
    {
        let mut out = String::new();
        let size = self.size.label();
        if !size.is_empty() {
            out.append(size);
            out.append(" ");
            proof {
                reveal_strlit(" ");
            }
        }
        out.append(self.movement.label());
        push_word(&mut out, self.shoot, "GUN");
        push_word(&mut out, self.blink, "BLINK");
        push_word(&mut out, self.shed, "TRAP");
        push_word(&mut out, self.brood, "BROOD");
        proof {
            reveal_strlit("GUN");
            reveal_strlit("BLINK");
            reveal_strlit("TRAP");
            reveal_strlit("BROOD");
        }
        out
    }

    /// The recipe as a rolled boss carries it. Two traits are decided rather
    /// than drawn: it always broods - making its own crowd is the whole fight -
    /// and it never sheds, since a hazard left by something that takes
    /// hundreds of hits would fill the floor.
    pub fn as_boss(&self) -> (r: Self)
        ensures
            r == (Recipe { brood: true, shed: false, ..*self }),
    {
        Recipe { brood: true, shed: false, ..*self }
    }
}

/// A rolled boss is announced as what it is: it always broods and never
/// sheds, and its name is the name of the rest of it with the brood added and
/// no hazard in it.
pub proof fn lemma_boss_name_tells_the_truth(r: Recipe)
    ensures
        ({
            let named = Recipe { brood: true, shed: false, ..r };
            &&& named.brood && !named.shed
            &&& spec_recipe_label(named) == spec_recipe_label(Recipe { brood: false, ..named }) + " BROOD"@
            &&& word_if(named.shed, "TRAP"@) == Seq::<char>::empty()
        }),
{
    let named = Recipe { brood: true, shed: false, ..r };
    reveal_strlit(" ");
    reveal_strlit("BROOD");
    reveal_strlit(" BROOD");
    assert(" "@ + "BROOD"@ =~= " BROOD"@);
    assert(word_if(false, "BROOD"@) =~= Seq::<char>::empty());
    assert(spec_recipe_label(named) =~= spec_recipe_label(Recipe { brood: false, ..named }) + " BROOD"@);
}

} // verus!

//! The name a rolled heavy is announced under as it arrives. The one thing
//! about a heavy that cannot be read off its colour is what it has rolled, so
//! it is said on the way in, and only for a while.
use vstd::prelude::*;

use crate::recipe::Recipe;

verus! {

/// How long a heavy's name stays up: three seconds of the fixed clock.
pub const ELITE_NOTICE_TICKS: i64 = 180;

/// The latest heavy to arrive, and the tick it arrived on.
#[derive(Clone, Copy, Debug, PartialEq, Eq, Structural)]
pub struct EliteNotice {
    pub recipe: Recipe,
    pub at: i64,
}

/// A notice made at tick `at` is up at tick `timer` while its age is at least
/// nothing and under [`ELITE_NOTICE_TICKS`]. A clock that has gone back past
/// it, as the clock does when a run starts, gives a negative age, which shows
/// nothing.
pub open spec fn spec_notice_shows(at: int, timer: int) -> bool {
    0 <= timer - at < ELITE_NOTICE_TICKS
}

/// What is announced at tick `timer`: the heavy's recipe while its notice is
/// up, otherwise nothing.
pub open spec fn spec_announced(notice: Option<EliteNotice>, timer: int) -> Option<Recipe> {
    match notice {
        Some(n) => if spec_notice_shows(n.at as int, timer) {
            Some(n.recipe)
        } else {
            None
        },
        None => None,
    }
}

pub fn notice_shows(at: i64, timer: i64) -> (b: bool)
    ensures
        b == spec_notice_shows(at as int, timer as int),
{
    let age = timer as i128 - at as i128;
    0 <= age && age < ELITE_NOTICE_TICKS as i128
}

/// The heavy to name at tick `timer`, if any.
pub fn announced(notice: Option<EliteNotice>, timer: i64) -> (r: Option<Recipe>)
    ensures
        r == spec_announced(notice, timer as int),
{
    match notice {
        Some(n) => if notice_shows(n.at, timer) {
            Some(n.recipe)
        } else {
            None
        },
        None => None,
    }
}

/// A heavy's name stays up for exactly [`ELITE_NOTICE_TICKS`] ticks from the
/// tick it arrived on, and not before it.
pub proof fn lemma_the_name_stays_up_for_a_while(recipe: Recipe, at: int, timer: int)
    requires
        i64::MIN <= at <= i64::MAX,
    ensures
        spec_announced(Some(EliteNotice { recipe, at: at as i64 }), timer) == (if at <= timer < at
            + ELITE_NOTICE_TICKS {
            Some(recipe)
        } else {
            None
        }),
{
}

} // verus!

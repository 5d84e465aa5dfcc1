//! The choice between waves.
//!
//! Three options stand in the lull as things to be hit. The player already
//! knows how to attack, so nothing new has to be taught and no button has to be
//! borrowed from the fight. Walking up and swinging is the whole interface.
//!
//! Both players share one offer and either can take it. The trigger is the team
//! total, which is also what drives the chase speed - so upgrades and difficulty
//! run off the same clock.
//!
//! This module decides *what* is offered and when it counts. Where the options
//! stand on screen is geometry, and belongs to the frontend's simulation.
use vstd::prelude::*;

use crate::attack::{roster, AttackKind, MAX_LEVEL, ROSTER_LEN};
use crate::rng::{range_state, range_value, Rng};

verus! {

/// Team score between offers.
pub const OFFER_SCORE_STEP: i64 = 4000;

/// How many stand at once.
pub const OFFER_CHOICES: usize = 3;

/// Ticks the options stand there inert before a hit counts as taking one.
///
/// A wave ends while the player is still swinging at what is left of it, and
/// the options appear inside that swing. Without a pause the choice is made by
/// whichever one happened to be nearest when the last enemy died.
pub const OFFER_ARM_TICKS: i64 = 90;

/// Where the options stand, as a percentage of the view's width.
pub const OFFER_X_PCT: [u32; 3] = [25, 50, 75];

#[derive(Clone, Copy, Debug, PartialEq, Eq, Structural)]
pub struct OfferChoice {
    pub kind: AttackKind,
    /// What the player would end up carrying - a fresh 1, or one more of what
    /// they already have.
    pub level: u8,
}

impl OfferChoice {
    /// True when this is another level of what the player is already holding.
    pub fn is_upgrade(&self, current: AttackKind) -> (b: bool)
        ensures
            b == (self.kind == current),
    {
        self.kind == current
    }
}

pub struct Offer {
    pub choices: [OfferChoice; OFFER_CHOICES],
    /// First tick on which a hit counts. A deadline rather than a countdown:
    /// the offer is created partway through a tick that has already run some
    /// of its work.
    pub live_from: i64,
}

/// The roster's first `n` kinds, less the one being carried, each at level 1.
pub open spec fn roster_pool(current: AttackKind, n: int) -> Seq<OfferChoice>
    decreases n,
{
    if n <= 0 {
        Seq::empty()
    } else if roster(n - 1) == current {
        roster_pool(current, n - 1)
    } else {
        roster_pool(current, n - 1).push(OfferChoice { kind: roster(n - 1), level: 1 })
    }
}

/// What may be offered to a player carrying `current` at `level`: one more
/// level of it while there is one, then every other kind at level 1.
pub open spec fn offer_pool(current: AttackKind, level: u8) -> Seq<OfferChoice> {
    let deeper = if current != AttackKind::Basic && level < MAX_LEVEL {
        seq![OfferChoice { kind: current, level: (level + 1) as u8 }]
    } else {
        Seq::empty()
    };
    deeper + roster_pool(current, ROSTER_LEN as int)
}

/// Positions `i` onward of `pool` after the partial shuffle that draws the
/// first `count` places, from state `s`.
pub open spec fn shuffled(pool: Seq<OfferChoice>, i: nat, count: nat, s: u64) -> (Seq<OfferChoice>, u64)
    decreases count - i,
{
    if i >= count || i >= pool.len() {
        (pool, s)
    } else {
        let hi = (pool.len() - i - 1) as i32;
        let r = range_value(s, 0, hi);
        let j = i + if r < 0 { 0 } else { r };
        shuffled(pool.update(i as int, pool[j]).update(j, pool[i as int]), i + 1, count, range_state(s, 0, hi))
    }
}

/// No two entries of the pool are the same kind.
pub open spec fn distinct_kinds(pool: Seq<OfferChoice>) -> bool {
    forall|a: int, b: int| 0 <= a < pool.len() && 0 <= b < pool.len() && a != b ==> pool[a].kind != pool[b].kind
}

/// What every offered option is: never the starting swing, the carried kind
/// only as one more level of it, anything else fresh at level 1.
pub open spec fn fair_choice(c: OfferChoice, current: AttackKind, level: u8) -> bool {
    &&& c.kind != AttackKind::Basic
    &&& c.kind == current ==> c.level == level + 1 && c.level <= MAX_LEVEL
    &&& c.kind != current ==> c.level == 1
}

pub open spec fn all_fair(pool: Seq<OfferChoice>, current: AttackKind, level: u8) -> bool {
    forall|a: int| 0 <= a < pool.len() ==> fair_choice(#[trigger] pool[a], current, level)
}

proof fn lemma_roster_pool(current: AttackKind, level: u8, n: int)
    requires
        0 <= n <= ROSTER_LEN,
    ensures
        distinct_kinds(roster_pool(current, n)),
        all_fair(roster_pool(current, n), current, level),
        forall|a: int|
            0 <= a < roster_pool(current, n).len() ==> exists|k: int|
                0 <= k < n && #[trigger] roster_pool(current, n)[a].kind == roster(k),
        forall|a: int| 0 <= a < roster_pool(current, n).len() ==> #[trigger] roster_pool(current, n)[a].kind != current,
        roster_pool(current, n).len() == n - (if carried_in_roster(current, n) { 1int } else { 0 }),
    decreases n,
{
    if n > 0 {
        lemma_roster_pool(current, level, n - 1);
        if roster(n - 1) == current {
            assert forall|k: int| 0 <= k < n - 1 implies roster(k) != current by {}
        } else {
            if carried_in_roster(current, n) {
                let k = choose|k: int| 0 <= k < n && roster(k) == current;
                assert(k < n - 1);
            }
        }
        let p = roster_pool(current, n - 1);
        if roster(n - 1) != current {
            let q = p.push(OfferChoice { kind: roster(n - 1), level: 1 });
            assert forall|a: int, b: int| 0 <= a < q.len() && 0 <= b < q.len() && a != b implies q[a].kind
                != q[b].kind by {
                if a < p.len() && b < p.len() {
                } else if a < p.len() {
                    let k = choose|k: int| 0 <= k < n - 1 && p[a].kind == roster(k);
                    assert(roster(k) != roster(n - 1));
                } else if b < p.len() {
                    let k = choose|k: int| 0 <= k < n - 1 && p[b].kind == roster(k);
                    assert(roster(k) != roster(n - 1));
                }
            }
            assert forall|a: int| 0 <= a < q.len() implies exists|k: int|
                0 <= k < n && #[trigger] q[a].kind == roster(k) by {
                if a < p.len() {
                    let k = choose|k: int| 0 <= k < n - 1 && p[a].kind == roster(k);
                    assert(q[a].kind == roster(k));
                } else {
                    assert(q[a].kind == roster(n - 1));
                }
            }
        }
    }
}

/// The carried kind is among the roster's first `n`.
pub open spec fn carried_in_roster(current: AttackKind, n: int) -> bool {
    exists|k: int| 0 <= k < n && roster(k) == current
}

/// The pool offers each kind at most once, and every entry is a fair choice.
pub proof fn lemma_offer_pool(current: AttackKind, level: u8)
    ensures
        distinct_kinds(offer_pool(current, level)),
        all_fair(offer_pool(current, level), current, level),
        offer_pool(current, level).len() >= ROSTER_LEN - 1,
{
    lemma_roster_pool(current, level, ROSTER_LEN as int);
    let r = roster_pool(current, ROSTER_LEN as int);
    let p = offer_pool(current, level);
    if current != AttackKind::Basic && level < MAX_LEVEL {
        let d = seq![OfferChoice { kind: current, level: (level + 1) as u8 }];
        assert(p == d + r);
        assert forall|a: int, b: int| 0 <= a < p.len() && 0 <= b < p.len() && a != b implies p[a].kind
            != p[b].kind by {
            if a == 0 {
                assert(p[b] == r[b - 1]);
            } else if b == 0 {
                assert(p[a] == r[a - 1]);
            } else {
                assert(p[a] == r[a - 1]);
                assert(p[b] == r[b - 1]);
            }
        }
        assert forall|a: int| 0 <= a < p.len() implies fair_choice(#[trigger] p[a], current, level) by {
            if a > 0 {
                assert(p[a] == r[a - 1]);
            }
        }
    } else {
        assert(p =~= r);
    }
    if carried_in_roster(current, ROSTER_LEN as int) {
        let k = choose|k: int| 0 <= k < ROSTER_LEN && roster(k) == current;
    }
}

/// The partial shuffle keeps the pool's length, keeps its kinds distinct and
/// keeps every entry fair: it only ever swaps two places.
pub proof fn lemma_shuffle_keeps_the_pool(
    pool: Seq<OfferChoice>,
    i: nat,
    count: nat,
    s: u64,
    current: AttackKind,
    level: u8,
)
    requires
        distinct_kinds(pool),
        all_fair(pool, current, level),
        pool.len() <= i32::MAX,
    ensures
        shuffled(pool, i, count, s).0.len() == pool.len(),
        distinct_kinds(shuffled(pool, i, count, s).0),
        all_fair(shuffled(pool, i, count, s).0, current, level),
    decreases count - i,
{
    if i < count && i < pool.len() {
        let hi = (pool.len() - i - 1) as i32;
        let r = range_value(s, 0, hi);
        let j = i + if r < 0 { 0 } else { r };
        assert(i <= j < pool.len());
        let q = pool.update(i as int, pool[j]).update(j, pool[i as int]);
        assert forall|a: int, b: int| 0 <= a < q.len() && 0 <= b < q.len() && a != b implies q[a].kind
            != q[b].kind by {
            let pa = if a == j { i as int } else if a == i { j } else { a };
            let pb = if b == j { i as int } else if b == i { j } else { b };
            assert(q[a] == pool[pa]);
            assert(q[b] == pool[pb]);
        }
        assert forall|a: int| 0 <= a < q.len() implies fair_choice(#[trigger] q[a], current, level) by {
            let pa = if a == j { i as int } else if a == i { j } else { a };
            assert(q[a] == pool[pa]);
        }
        lemma_shuffle_keeps_the_pool(q, i + 1, count, range_state(s, 0, hi), current, level);
    }
}

impl Offer {
    /// True once hitting an option means taking it.
    pub fn armed(&self, timer: i64) -> (b: bool)
        ensures
            b == (timer >= self.live_from),
    {
        timer >= self.live_from
    }

    /// Draws three distinct options for a player carrying `current` at `level`.
    ///
    /// The pool is every kind they are not holding, plus one more level of the
    /// one they are - so a run can deepen a weapon instead of only swapping it,
    /// and a maxed-out weapon quietly stops being offered. Three places of the
    /// pool are shuffled, which keeps the generator's use proportional to what
    /// is taken rather than to the pool.
    pub fn roll(current: AttackKind, level: u8, timer: i64, rng: &mut Rng) -> (o: Self)
        requires
            timer <= i64::MAX - OFFER_ARM_TICKS,
        ensures
            ({
                let (pool, s) = shuffled(offer_pool(current, level), 0, OFFER_CHOICES as nat, old(rng)@);
                &&& forall|i: int| 0 <= i < OFFER_CHOICES ==> #[trigger] o.choices[i] == pool[i]
                &&& final(rng)@ == s
            }),
            o.live_from == timer + OFFER_ARM_TICKS,
            // Three different kinds, each a fair choice.
            o.choices[0].kind != o.choices[1].kind,
            o.choices[0].kind != o.choices[2].kind,
            o.choices[1].kind != o.choices[2].kind,
            forall|i: int| 0 <= i < OFFER_CHOICES ==> fair_choice(#[trigger] o.choices[i], current, level),
    {
        let mut pool: Vec<OfferChoice> = Vec::new();
        if current != AttackKind::Basic && level < MAX_LEVEL {
            pool.push(OfferChoice { kind: current, level: level + 1 });
        }
        let ghost deeper = pool@;
        let mut k: usize = 0;
        while k < ROSTER_LEN
            invariant
                k <= ROSTER_LEN,
                pool@ == deeper + roster_pool(current, k as int),
                deeper == (if current != AttackKind::Basic && level < MAX_LEVEL {
                    seq![OfferChoice { kind: current, level: (level + 1) as u8 }]
                } else {
                    Seq::empty()
                }),
            decreases ROSTER_LEN - k,
        {
            let kind = AttackKind::roster_at(k);
            if kind != current {
                pool.push(OfferChoice { kind, level: 1 });
            }
            k += 1;
        }
        proof {
            assert(pool@ =~= offer_pool(current, level));
            lemma_offer_pool(current, level);
            lemma_roster_pool(current, level, ROSTER_LEN as int);
            lemma_shuffle_keeps_the_pool(pool@, 0, OFFER_CHOICES as nat, rng@, current, level);
        }
        let ghost start = pool@;
        let ghost s0 = rng@;
        let n = pool.len();
        let mut i: usize = 0;
        while i < OFFER_CHOICES
            invariant
                i <= OFFER_CHOICES,
                n == pool@.len(),
                n >= ROSTER_LEN - 1,
                n <= ROSTER_LEN + 1,
                shuffled(start, 0, OFFER_CHOICES as nat, s0) == shuffled(pool@, i as nat, OFFER_CHOICES as nat, rng@),
            decreases OFFER_CHOICES - i,
        {
            let hi = (n - i - 1) as i32;
            let r = rng.range(0, hi);
            let j = i + if r < 0 { 0 } else { r as usize };
            let a = pool[i];
            let b = pool[j];
            pool.set(i, b);
            pool.set(j, a);
            i += 1;
        }
        let choices = [pool[0], pool[1], pool[2]];
        proof {
            let fin = shuffled(start, 0, OFFER_CHOICES as nat, s0).0;
            assert(fin == pool@);
            assert(choices[0] == fin[0]);
            assert(choices[1] == fin[1]);
            assert(choices[2] == fin[2]);
            assert(fair_choice(fin[0], current, level));
            assert(fair_choice(fin[1], current, level));
            assert(fair_choice(fin[2], current, level));
        }
        Self { choices, live_from: timer + OFFER_ARM_TICKS }
    }
}

} // verus!

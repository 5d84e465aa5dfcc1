//! Rounding a whole number to the precision of a 32-bit float: 24 significant
//! bits, ties to even. The game's chance draws are read at that precision, so
//! a draw compared against a chance, or scaled by a table's total, lands
//! exactly where a float would put it.
use vstd::prelude::*;

verus! {

/// The largest number with no more than 24 significant bits plus one.
pub const SIGNIFICAND_LIMIT: u128 = 0x100_0000;

pub open spec fn two_to(k: nat) -> nat
    decreases k,
{
    if k == 0 {
        1
    } else {
        2 * two_to((k - 1) as nat)
    }
}

/// How many low bits of `x` a 24-bit significand cannot hold.
pub open spec fn excess_bits(x: nat) -> nat
    decreases x,
{
    if x < SIGNIFICAND_LIMIT {
        0
    } else {
        1 + excess_bits(x / 2)
    }
}

/// `x` rounded to 24 significant bits, ties to even: the value a 32-bit float
/// holds for it.
pub open spec fn to_float_precision(x: nat) -> nat {
    let k = excess_bits(x);
    if k == 0 {
        x
    } else {
        let p = two_to(k);
        let q = x / p;
        let r = x % p;
        let half = p / 2;
        if r > half || (r == half && q % 2 == 1) {
            (q + 1) * p
        } else {
            q * p
        }
    }
}

proof fn lemma_halving(x: nat, k: nat)
    ensures
        x / two_to(k) / 2 == x / two_to(k + 1),
        two_to(k + 1) == 2 * two_to(k),
        two_to(k) >= 1,
{
    lemma_two_to_positive(k);
    assert(two_to(k + 1) == 2 * two_to(k));
    vstd::arithmetic::div_mod::lemma_div_denominator(x as int, two_to(k) as int, 2);
    assert(two_to(k) * 2 == two_to(k + 1));
}

/// Every power of two is at least one.
pub proof fn lemma_two_to_positive(k: nat)
    ensures
        two_to(k) >= 1,
    decreases k,
{
    if k > 0 {
        lemma_two_to_positive((k - 1) as nat);
    }
}

proof fn lemma_excess_unfolds(x: nat, y: nat, k: nat)
    requires
        y >= SIGNIFICAND_LIMIT,
        excess_bits(x) == k + excess_bits(y),
    ensures
        excess_bits(x) == (k + 1) + excess_bits(y / 2),
{
}

/// `x` rounded to the precision of a 32-bit float.
pub fn round_to_float_precision(x: u128) -> (r: u128)
    requires
        x < 0x8000_0000_0000_0000_0000_0000_0000_0000,
    ensures
        r == to_float_precision(x as nat),
        r <= 2 * x,
        r <= x + x / 0x80_0000,
{
    let mut y: u128 = x;
    let mut p: u128 = 1;
    let ghost mut k: nat = 0;
    assert(two_to(0) == 1);
    assert(x as nat / 1 == x as nat);
    while y >= SIGNIFICAND_LIMIT
        invariant
            y == x as nat / two_to(k),
            p == two_to(k),
            excess_bits(x as nat) == k + excess_bits(y as nat),
            p * y <= x,
            p >= 1,
            k > 0 ==> p * (SIGNIFICAND_LIMIT / 2) <= x,
            x < 0x8000_0000_0000_0000_0000_0000_0000_0000,
        decreases y,
    {
        proof {
            lemma_halving(x as nat, k);
            lemma_excess_unfolds(x as nat, y as nat, k);
            assert(p * 2 <= x) by (nonlinear_arith)
                requires
                    p * y <= x,
                    y >= SIGNIFICAND_LIMIT,
                    p >= 1,
            ;
            assert(p * 2 * (y / 2) <= x) by (nonlinear_arith)
                requires
                    p * y <= x,
                    p >= 1,
            ;
            assert((p * 2) * (SIGNIFICAND_LIMIT / 2) <= x) by (nonlinear_arith)
                requires
                    p * y <= x,
                    y >= SIGNIFICAND_LIMIT,
                    p >= 1,
            ;
        }
        y = y / 2;
        p = p * 2;
        proof {
            k = k + 1;
        }
    }
    assert(excess_bits(y as nat) == 0);
    if p == 1 {
        proof {
            if k > 0 {
                lemma_halving(x as nat, (k - 1) as nat);
                lemma_two_to_positive((k - 1) as nat);
                assert(false);
            }
        }
        return x;
    }
    proof {
        if k == 0 {
            assert(false);
        }
    }
    let q = x / p;
    let rest = x % p;
    let half = p / 2;
    assert(q == y);
    assert(q < SIGNIFICAND_LIMIT);
    assert(x == p * q + rest) by {
        vstd::arithmetic::div_mod::lemma_fundamental_div_mod(x as int, p as int);
    }
    assert((q + 1) * p <= 2 * x) by (nonlinear_arith)
        requires
            q < SIGNIFICAND_LIMIT,
            p * (SIGNIFICAND_LIMIT / 2) <= x,
            x == p * q + rest,
            rest >= 0,
            p >= 1,
    ;
    assert((q + 1) * p <= x + x / 0x80_0000) by (nonlinear_arith)
        requires
            p * (SIGNIFICAND_LIMIT / 2) <= x,
            x == p * q + rest,
            rest >= 0,
            p >= 1,
    ;
    assert(q * p <= x) by (nonlinear_arith)
        requires
            x == p * q + rest,
            rest >= 0,
    ;
    if rest > half || (rest == half && q % 2 == 1) {
        (q + 1) * p
    } else {
        q * p
    }
}

} // verus!

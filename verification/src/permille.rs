//! Completion as an integer in `[0, 1000]`, computed without overflow.

use vstd::prelude::*;
use vstd::arithmetic::div_mod::*;

verus! {

/// A finished indicator: one thousand per mille.
pub const FULL: u16 = 1000;

/// The largest count that can be multiplied by one thousand in a `u64`.
pub const CUTOFF: u64 = 18446744073709551;

/// Completion of `current` out of `total`, in per mille.
///
/// Saturates at 1000 once `current` reaches `total`. Below that it is the
/// exact quotient `1000 * current / total` while the product fits in 64
/// bits, and `current / (total / 1000)` for the larger counts.
pub open spec fn permille(current: nat, total: nat) -> nat {
    if current >= total {
        1000
    } else if current > CUTOFF {
        current / (total / 1000)
    } else {
        current * 1000 / total
    }
}

/// The exact quotient `1000 * current / total`, rounded down.
pub open spec fn exact_permille(current: nat, total: nat) -> nat {
    current * 1000 / total
}

/// A dividend below `bound * divisor` has a quotient below `bound`.
pub proof fn lemma_quotient_below(dividend: int, bound: int, divisor: int)
    requires
        dividend < bound * divisor,
        0 < divisor,
    ensures
        dividend / divisor < bound,
{
    lemma_div_by_multiple_is_strongly_ordered(dividend, bound * divisor, bound, divisor);
    lemma_div_multiples_vanish(bound, divisor);
    assert(bound * divisor == divisor * bound) by (nonlinear_arith);
}

/// A dividend of at least `floor * divisor` has a quotient of at least `floor`.
pub proof fn lemma_quotient_at_least(dividend: int, floor: int, divisor: int)
    requires
        floor * divisor <= dividend,
        0 < divisor,
    ensures
        floor <= dividend / divisor,
{
    lemma_div_is_ordered(floor * divisor, dividend, divisor);
    lemma_div_multiples_vanish(floor, divisor);
    assert(floor * divisor == divisor * floor) by (nonlinear_arith);
}

/// Per mille with the factor of one thousand split between the count and
/// the total: the count is multiplied by `up` and the total divided by
/// `down`, where `up * down` is one thousand. Short of the total, and with
/// a total large enough that its part is at least one thousand, the result
/// is the exact per mille or one above it, and at most 1000.
pub proof fn lemma_split_factor(current: nat, total: nat, up: nat, down: nat)
    requires
        up * down == 1000,
        current < total,
        total / down >= 1000,
    ensures
        exact_permille(current, total) <= current * up / (total / down) <= exact_permille(
            current,
            total,
        ) + 1,
        current * up / (total / down) <= 1000,
{
    let q: int = total as int / down as int;
    let m: int = (current * up) as int / q;
    let e: int = (current * 1000) as int / total as int;
    assert(down > 0 && up > 0) by (nonlinear_arith)
        requires
            up * down == 1000,
    ;
    lemma_fundamental_div_mod(total as int, down as int);
    lemma_mod_bound(total as int, down as int);
    lemma_fundamental_div_mod((current * up) as int, q);
    lemma_mod_bound((current * up) as int, q);
    lemma_fundamental_div_mod((current * 1000) as int, total as int);
    lemma_mod_bound((current * 1000) as int, total as int);
    lemma_quotient_at_least((current * 1000) as int, 0, total as int);
    // at most 1000
    assert(current * up < 1001 * q) by (nonlinear_arith)
        requires
            current < total,
            total < down * q + down,
            up * down == 1000,
            q >= 1000,
            up > 0,
            down > 0,
    ;
    lemma_quotient_below((current * up) as int, 1001, q);
    // not below the exact quotient
    assert(e * q <= current * up) by (nonlinear_arith)
        requires
            total * e <= current * 1000,
            down * q <= total,
            up * down == 1000,
            e >= 0,
            q >= 0,
            down > 0,
    ;
    lemma_quotient_at_least((current * up) as int, e, q);
    // at most one above it
    assert((m - 1) * total <= current * 1000) by (nonlinear_arith)
        requires
            q * m <= current * up,
            total < down * q + down,
            up * down == 1000,
            m <= 1000,
            q >= 1000,
            down > 0,
            total >= 0,
    ;
    lemma_quotient_at_least((current * 1000) as int, m - 1, total as int);
}

/// For the larger counts, short of the total, the quotient by a
/// thousandth of `total` is the exact per mille or one above it, and at
/// most 1000.
proof fn lemma_coarse_tier(current: nat, total: nat)
    requires
        CUTOFF < current < total,
    ensures
        total / 1000 >= 1000,
        exact_permille(current, total) <= current / (total / 1000) <= exact_permille(
            current,
            total,
        ) + 1,
        current / (total / 1000) <= 1000,
{
    lemma_fundamental_div_mod(total as int, 1000);
    lemma_split_factor(current, total, 1, 1000);
    assert(current * 1 == current);
}

/// Below `total`, the exact quotient stays under 1000.
proof fn lemma_exact_tier_bounded(current: nat, total: nat)
    requires
        current < total,
    ensures
        current * 1000 / total < 1000,
{
    assert(current * 1000 < 1000 * total) by (nonlinear_arith)
        requires
            current < total,
    ;
    lemma_quotient_below((current * 1000) as int, 1000, total as int);
}

/// Per mille never exceeds 1000.
pub proof fn lemma_permille_bounded(current: nat, total: nat)
    ensures
        permille(current, total) <= 1000,
{
    if current >= total {
    } else if current > CUTOFF {
        lemma_coarse_tier(current, total);
    } else {
        lemma_exact_tier_bounded(current, total);
    }
}

/// Per mille is 1000 as soon as `current` has reached `total`.
pub proof fn lemma_permille_saturates(current: nat, total: nat)
    requires
        current >= total,
    ensures
        permille(current, total) == 1000,
{
}

/// Nothing done out of a positive total is zero per mille.
pub proof fn lemma_permille_of_nothing(total: nat)
    requires
        total > 0,
    ensures
        permille(0, total) == 0,
{
    lemma_div_basics(total as int);
}

/// While the product fits in 64 bits, per mille is 1000 only once
/// `current` has reached `total`: a bar that is short of its total is
/// never shown as full.
pub proof fn lemma_permille_full_only_when_done(current: nat, total: nat)
    requires
        current <= CUTOFF,
    ensures
        permille(current, total) == 1000 <==> current >= total,
{
    if current < total {
        lemma_exact_tier_bounded(current, total);
    }
}

/// For a fixed total, per mille never decreases as `current` grows.
pub proof fn lemma_permille_monotonic(lower: nat, upper: nat, total: nat)
    requires
        lower <= upper,
    ensures
        permille(lower, total) <= permille(upper, total),
{
    lemma_permille_bounded(lower, total);
    if upper >= total {
    } else if lower > CUTOFF {
        lemma_coarse_tier(lower, total);
        lemma_div_is_ordered(lower as int, upper as int, (total / 1000) as int);
    } else if upper > CUTOFF {
        lemma_coarse_tier(upper, total);
        assert(lower * 1000 <= upper * 1000) by (nonlinear_arith)
            requires
                lower <= upper,
        ;
        lemma_div_is_ordered((lower * 1000) as int, (upper * 1000) as int, total as int);
    } else {
        assert(lower * 1000 <= upper * 1000) by (nonlinear_arith)
            requires
                lower <= upper,
        ;
        lemma_div_is_ordered((lower * 1000) as int, (upper * 1000) as int, total as int);
    }
}

/// Below `total`, per mille is the exact quotient or one above it.
pub proof fn lemma_permille_accuracy(current: nat, total: nat)
    requires
        current < total,
    ensures
        exact_permille(current, total) <= permille(current, total) <= exact_permille(
            current,
            total,
        ) + 1,
{
    if current > CUTOFF {
        lemma_coarse_tier(current, total);
    }
}

/// Completion of `current` out of `total` in per mille, for the display.
pub fn into_permille(current: u64, total: u64) -> (r: u16)
    ensures
        r == permille(current as nat, total as nat),
        r <= FULL,
{
    proof {
        lemma_permille_bounded(current as nat, total as nat);
    }
    if current >= total {
        1000
    } else if current > CUTOFF {
        proof {
            lemma_coarse_tier(current as nat, total as nat);
        }
        let part: u64 = current / (total / 1000);
        part as u16
    } else {
        let part: u64 = (current * 1000) / total;
        part as u16
    }
}

} // verus!

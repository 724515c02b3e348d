//! Division of integers with the quotient rounded to a whole number.
use vstd::prelude::*;

verus! {

/// The magnitude of `n`.
pub open spec fn magnitude(n: int) -> int {
    if n >= 0 {
        n
    } else {
        -n
    }
}

/// For `n >= 0` and `d > 0`: the whole number nearest to `n / d`, the upper one
/// where two are equally near.
pub open spec fn round_half_up(n: int, d: int) -> int {
    (2 * n + d) / (2 * d)
}

/// The whole number nearest to the ratio `n / d`; where two are equally near,
/// the one farther from zero. Zero where `d` is zero.
pub open spec fn round_ratio(n: int, d: int) -> int {
    if d == 0 {
        0
    } else if (n >= 0) == (d > 0) {
        round_half_up(magnitude(n), magnitude(d))
    } else {
        -round_half_up(magnitude(n), magnitude(d))
    }
}

/// What `round_half_up` returns lies within half a divisor of the dividend, and
/// no dividend is rounded below zero.
pub proof fn lemma_round_half_up_near(n: int, d: int)
    requires
        n >= 0,
        d > 0,
    ensures
        round_half_up(n, d) >= 0,
        2 * n - d < 2 * (round_half_up(n, d) * d) <= 2 * n + d,
{
    let q = round_half_up(n, d);
    assert(q >= 0 && 2 * n - d < 2 * (q * d) <= 2 * n + d) by (nonlinear_arith)
        requires
            n >= 0,
            d > 0,
            q == (2 * n + d) / (2 * d),
    {
        let r = (2 * n + d) % (2 * d);
        assert(2 * n + d == (2 * d) * q + r);
        assert(0 <= r < 2 * d);
        assert((2 * d) * q == 2 * (q * d));
    }
}

/// The rounded ratio is nearest: it differs from the exact ratio by at most a
/// half, that is, `q * d` differs from `n` by at most half of `d`.
pub proof fn lemma_round_ratio_near(n: int, d: int)
    requires
        d != 0,
    ensures
        2 * magnitude(n - round_ratio(n, d) * d) <= magnitude(d),
        magnitude(round_ratio(n, d)) == round_half_up(magnitude(n), magnitude(d)),
{
    let m = round_half_up(magnitude(n), magnitude(d));
    lemma_round_half_up_near(magnitude(n), magnitude(d));
    let q = round_ratio(n, d);
    assert(q * d == m * magnitude(d) || q * d == -(m * magnitude(d))) by (nonlinear_arith)
        requires
            q == m || q == -m,
            d != 0,
    ;
    assert(n >= 0 ==> q * d == m * magnitude(d)) by (nonlinear_arith)
        requires
            d != 0,
            q == round_ratio(n, d),
            m == round_half_up(magnitude(n), magnitude(d)),
    ;
    assert(n < 0 ==> q * d == -(m * magnitude(d))) by (nonlinear_arith)
        requires
            d != 0,
            q == round_ratio(n, d),
            m == round_half_up(magnitude(n), magnitude(d)),
    ;
}

/// Rounding is odd in the dividend and even under a change of both signs.
pub proof fn lemma_round_ratio_signs(n: int, d: int)
    ensures
        round_ratio(-n, d) == -round_ratio(n, d),
        round_ratio(n, -d) == -round_ratio(n, d),
        round_ratio(-n, -d) == round_ratio(n, d),
{
    if d != 0 {
        lemma_round_half_up_near(0, magnitude(d));
        assert(round_half_up(0, magnitude(d)) == 0) by (nonlinear_arith)
            requires
                magnitude(d) > 0,
                round_half_up(0, magnitude(d)) >= 0,
                2 * (round_half_up(0, magnitude(d)) * magnitude(d)) <= magnitude(d),
        ;
    }
}

/// A whole ratio is rounded to itself.
pub proof fn lemma_round_ratio_exact(k: int, d: int)
    requires
        d != 0,
    ensures
        round_ratio(k * d, d) == k,
{
    let q = round_ratio(k * d, d);
    lemma_round_ratio_near(k * d, d);
    assert(q == k) by (nonlinear_arith)
        requires
            d != 0,
            2 * magnitude(k * d - q * d) <= magnitude(d),
    {
        assert(k * d - q * d == (k - q) * d);
        if k - q >= 1 {
            assert(magnitude((k - q) * d) >= magnitude(d));
        }
        if k - q <= -1 {
            assert(magnitude((k - q) * d) >= magnitude(d));
        }
    }
}

/// Over a positive divisor, a larger dividend is never rounded lower.
pub proof fn lemma_round_ratio_monotonic(a: int, b: int, d: int)
    requires
        a <= b,
        d > 0,
    ensures
        round_ratio(a, d) <= round_ratio(b, d),
{
    lemma_round_half_up_near(magnitude(a), d);
    lemma_round_half_up_near(magnitude(b), d);
    let qa = round_half_up(magnitude(a), d);
    let qb = round_half_up(magnitude(b), d);
    if a >= 0 {
        assert(qa <= qb) by (nonlinear_arith)
            requires
                d > 0,
                0 <= a <= b,
                2 * a - d < 2 * (qa * d),
                2 * (qb * d) <= 2 * b + d,
                2 * b - d < 2 * (qb * d),
                2 * (qa * d) <= 2 * a + d,
                qa == (2 * a + d) / (2 * d),
                qb == (2 * b + d) / (2 * d),
        {
            assert(2 * a + d <= 2 * b + d);
        }
    } else if b < 0 {
        assert(qb <= qa) by (nonlinear_arith)
            requires
                d > 0,
                0 < -b <= -a,
                qa == (2 * (-a) + d) / (2 * d),
                qb == (2 * (-b) + d) / (2 * d),
        {
            assert(2 * (-b) + d <= 2 * (-a) + d);
        }
    }
}

/// `n / d` rounded down to a whole number.
pub(crate) fn floor_div(n: i128, d: i128) -> (q: i128)
    requires
        d > 0,
        -0x1000_0000_0000_0000_0000_0000_0000_0000 < n < 0x1000_0000_0000_0000_0000_0000_0000_0000,
        d < 0x1000_0000_0000_0000_0000_0000_0000_0000,
    ensures
        q == n as int / d as int,
{
    if n >= 0 {
        n / d
    } else {
        let up: i128 = (d - 1 - n) / d;
        assert(-(up as int) == n as int / d as int) by (nonlinear_arith)
            requires
                d > 0,
                n < 0,
                up == ((d - 1 - n) as int) / (d as int),
        {
            let r = ((d - 1 - n) as int) % (d as int);
            assert(d - 1 - n == d * up + r);
            assert(0 <= r < d);
            assert(n == d * (-up) + (d - 1 - r));
            let e = (n as int) % (d as int);
            let f = (n as int) / (d as int);
            assert(n == d * f + e);
            assert(0 <= e < d);
            assert(d * (f + up) == d * f + d * up);
            if f + up >= 1 {
                assert(d * (f + up) >= d);
            }
            if f + up <= -1 {
                assert(d * (f + up) <= -d);
            }
        }
        -up
    }
}

/// `n / d` rounded to the nearest whole number.
pub(crate) fn round_div(n: i128, d: i128) -> (q: i128)
    requires
        d != 0,
        -0x1000_0000_0000_0000_0000_0000_0000_0000 < n < 0x1000_0000_0000_0000_0000_0000_0000_0000,
        -0x1000_0000_0000_0000_0000_0000_0000_0000 < d < 0x1000_0000_0000_0000_0000_0000_0000_0000,
    ensures
        q == round_ratio(n as int, d as int),
{
    let un: i128 = if n >= 0 { n } else { -n };
    let ud: i128 = if d > 0 { d } else { -d };
    proof {
        lemma_round_half_up_near(un as int, ud as int);
        assert(round_half_up(un as int, ud as int) <= 2 * un + ud) by (nonlinear_arith)
            requires
                un >= 0,
                ud > 0,
                round_half_up(un as int, ud as int) >= 0,
                2 * (round_half_up(un as int, ud as int) * ud) <= 2 * un + ud,
        ;
    }
    let m: i128 = (2 * un + ud) / (2 * ud);
    if (n >= 0) == (d > 0) {
        m
    } else {
        -m
    }
}

} // verus!

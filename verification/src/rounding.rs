//! Division with rounding to the nearest integer, ties away from zero, and
//! the evenly spaced grid lines built on it.

use vstd::arithmetic::div_mod::{
    lemma_div_is_ordered, lemma_div_multiples_vanish_fancy, lemma_div_pos_is_pos,
    lemma_fundamental_div_mod, lemma_fundamental_div_mod_converse,
};
use vstd::prelude::*;

verus! {

/// The integer nearest to `p / q` for a positive `q`; a tie goes to the
/// integer of larger magnitude.
pub open spec fn round_div(p: int, q: int) -> int {
    if p >= 0 {
        (2 * p + q) / (2 * q)
    } else {
        -((q - 2 * p) / (2 * q))
    }
}

/// `round_div(p, q)` is within half a unit of `p / q`, and on an exact tie
/// it is the candidate farther from zero.
pub proof fn lemma_round_div_nearest(p: int, q: int)
    requires
        q > 0,
    ensures
        -q <= 2 * (q * round_div(p, q)) - 2 * p <= q,
        p >= 0 ==> 2 * (q * round_div(p, q)) - 2 * p > -q,
        p < 0 ==> 2 * (q * round_div(p, q)) - 2 * p < q,
{
    let d = 2 * q;
    if p >= 0 {
        let n = 2 * p + q;
        lemma_fundamental_div_mod(n, d);
        assert(d * (n / d) == 2 * (q * (n / d))) by (nonlinear_arith)
            requires
                d == 2 * q,
        ;
    } else {
        let n = q - 2 * p;
        lemma_fundamental_div_mod(n, d);
        assert(d * (n / d) == 2 * (q * (n / d))) by (nonlinear_arith)
            requires
                d == 2 * q,
        ;
        assert(q * (-(n / d)) == -(q * (n / d))) by (nonlinear_arith);
    }
}

/// Rounding keeps the order of the numerators.
pub proof fn lemma_round_div_monotone(below: int, above: int, q: int)
    requires
        q > 0,
        below <= above,
    ensures
        round_div(below, q) <= round_div(above, q),
{
    let d = 2 * q;
    if below >= 0 {
        lemma_div_is_ordered(2 * below + q, 2 * above + q, d);
    } else if above < 0 {
        lemma_div_is_ordered(q - 2 * above, q - 2 * below, d);
    } else {
        lemma_div_is_ordered(0, q - 2 * below, d);
        lemma_div_is_ordered(0, 2 * above + q, d);
        assert(0int / d == 0) by {
            lemma_div_multiples_vanish_fancy(0, 0, d);
            assert(d * 0 + 0 == 0);
        }
    }
}

/// A multiple of the divisor rounds to its exact quotient.
pub proof fn lemma_round_div_exact(k: int, q: int)
    requires
        q > 0,
    ensures
        round_div(k * q, q) == k,
{
    let d = 2 * q;
    if k * q >= 0 {
        assert(k >= 0) by (nonlinear_arith)
            requires
                k * q >= 0,
                q > 0,
        ;
        assert(2 * (k * q) + q == d * k + q) by (nonlinear_arith)
            requires
                d == 2 * q,
        ;
        lemma_div_multiples_vanish_fancy(k, q, d);
    } else {
        assert(q - 2 * (k * q) == d * (-k) + q) by (nonlinear_arith)
            requires
                d == 2 * q,
        ;
        lemma_div_multiples_vanish_fancy(-k, q, d);
    }
}

/// A numerator between two multiples of the divisor rounds to a value
/// between the two quotients.
pub proof fn lemma_round_div_between(lo: int, hi: int, p: int, q: int)
    requires
        q > 0,
        lo * q <= p <= hi * q,
    ensures
        lo <= round_div(p, q) <= hi,
{
    lemma_round_div_exact(lo, q);
    lemma_round_div_exact(hi, q);
    lemma_round_div_monotone(lo * q, p, q);
    lemma_round_div_monotone(p, hi * q, q);
}

/// The quotient `t` and remainder `rem` of a numerator that is not
/// negative round to `t`, or to `t + 1` from half of the divisor on.
proof fn lemma_round_div_from_parts(p: int, q: int, t: int, rem: int)
    requires
        q > 0,
        p >= 0,
        p == t * q + rem,
        0 <= rem < q,
    ensures
        round_div(p, q) == (if rem >= q - rem {
            t + 1
        } else {
            t
        }),
{
    let d = 2 * q;
    if rem >= q - rem {
        assert(2 * p + q == (t + 1) * d + (2 * rem - q)) by (nonlinear_arith)
            requires
                p == t * q + rem,
                d == 2 * q,
        ;
        lemma_fundamental_div_mod_converse(2 * p + q, d, t + 1, 2 * rem - q);
    } else {
        assert(2 * p + q == t * d + (2 * rem + q)) by (nonlinear_arith)
            requires
                p == t * q + rem,
                d == 2 * q,
        ;
        lemma_fundamental_div_mod_converse(2 * p + q, d, t, 2 * rem + q);
    }
}

/// Computes `round_div` in 64-bit arithmetic.
pub fn round_div_i64(p: i64, q: i64) -> (r: i64)
    requires
        q > 0,
    ensures
        r == round_div(p as int, q as int),
{
    if p >= 0 {
        let t: i64 = p / q;
        let rem: i64 = p % q;
        proof {
            lemma_fundamental_div_mod(p as int, q as int);
            lemma_div_pos_is_pos(p as int, q as int);
            assert(q * t == t * q) by (nonlinear_arith);
            lemma_round_div_from_parts(p as int, q as int, t as int, rem as int);
            assert(t <= p) by (nonlinear_arith)
                requires
                    p == t * q + rem,
                    rem >= 0,
                    q >= 1,
                    t >= 0,
            ;
            if rem >= q - rem {
                assert(t < p) by (nonlinear_arith)
                    requires
                        p == t * q + rem,
                        rem >= q - rem,
                        rem < q,
                        q >= 1,
                        t >= 0,
                ;
            }
        }
        if rem >= q - rem {
            t + 1
        } else {
            t
        }
    } else {
        // The magnitude of `p` is `m + 1`; it is kept apart so that the
        // smallest numerator needs no special case.
        let m: i64 = -(p + 1);
        let t: i64 = m / q;
        let rem: i64 = m % q;
        proof {
            lemma_fundamental_div_mod(m as int, q as int);
            lemma_div_pos_is_pos(m as int, q as int);
            assert(q * t == t * q) by (nonlinear_arith);
            assert(t <= m) by (nonlinear_arith)
                requires
                    m == t * q + rem,
                    rem >= 0,
                    q >= 1,
                    t >= 0,
            ;
        }
        let mut nt: i64 = -t;
        let mut rest: i64 = rem + 1;
        if rest == q {
            nt = nt - 1;
            rest = 0;
        }
        proof {
            let k = -nt;
            assert(-p == k * q + rest) by (nonlinear_arith)
                requires
                    -p == m + 1,
                    m == t * q + rem,
                    (rest == rem + 1 && k == t) || (rem + 1 == q && rest == 0 && k == t + 1),
            ;
            lemma_round_div_from_parts(-p as int, q as int, k as int, rest as int);
            assert(round_div(p as int, q as int) == -round_div(-p as int, q as int)) by {
                assert((q - 2 * p) == 2 * (-p) + q);
            }
        }
        if rest >= q - rest {
            nt - 1
        } else {
            nt
        }
    }
}

/// The position of grid line `i` when the span from `lo` to `hi` is cut
/// into `n` parts of equal size: line 0 is `lo`, line `n` is exactly `hi`,
/// and each line between is `lo + i * (hi - lo) / n` rounded to the nearest
/// integer.
pub open spec fn grid_line(lo: int, hi: int, n: int, i: int) -> int {
    if i <= 0 {
        lo
    } else if i >= n {
        hi
    } else {
        round_div(lo * n + i * (hi - lo), n)
    }
}

/// Every grid line lies between the two ends of the span, whichever of the
/// two is the smaller.
pub proof fn lemma_grid_line_within(lo: int, hi: int, n: int, i: int)
    requires
        n > 0,
    ensures
        lo <= hi ==> lo <= grid_line(lo, hi, n, i) <= hi,
        hi <= lo ==> hi <= grid_line(lo, hi, n, i) <= lo,
{
    if 0 < i < n {
        let p = lo * n + i * (hi - lo);
        if lo <= hi {
            assert(lo * n <= p <= hi * n) by (nonlinear_arith)
                requires
                    p == lo * n + i * (hi - lo),
                    0 < i < n,
                    lo <= hi,
            ;
            lemma_round_div_between(lo, hi, p, n);
        }
        if hi <= lo {
            assert(hi * n <= p <= lo * n) by (nonlinear_arith)
                requires
                    p == lo * n + i * (hi - lo),
                    0 < i < n,
                    hi <= lo,
            ;
            lemma_round_div_between(hi, lo, p, n);
        }
    }
}

/// On a span that is not reversed the grid lines never step backwards.
pub proof fn lemma_grid_line_monotone(lo: int, hi: int, n: int, i: int, j: int)
    requires
        n > 0,
        lo <= hi,
        i <= j,
    ensures
        grid_line(lo, hi, n, i) <= grid_line(lo, hi, n, j),
{
    lemma_grid_line_within(lo, hi, n, i);
    lemma_grid_line_within(lo, hi, n, j);
    if 0 < i && j < n {
        assert(lo * n + i * (hi - lo) <= lo * n + j * (hi - lo)) by (nonlinear_arith)
            requires
                i <= j,
                lo <= hi,
        ;
        lemma_round_div_monotone(lo * n + i * (hi - lo), lo * n + j * (hi - lo), n);
    }
}

/// Position `p` lies in part `k`: at or beyond grid line `k` and before
/// grid line `k + 1`.
pub open spec fn in_grid_part(lo: int, hi: int, n: int, k: int, p: int) -> bool {
    grid_line(lo, hi, n, k) <= p < grid_line(lo, hi, n, k + 1)
}

/// On a span that is not reversed every position of the span lies in
/// exactly one part.
pub proof fn lemma_grid_lines_partition(lo: int, hi: int, n: int, p: int)
    requires
        n > 0,
        lo <= p < hi,
    ensures
        exists|k: int| 0 <= k < n && in_grid_part(lo, hi, n, k, p),
        forall|j: int, k: int|
            0 <= j < n && 0 <= k < n && #[trigger] in_grid_part(lo, hi, n, j, p)
                && #[trigger] in_grid_part(lo, hi, n, k, p) ==> j == k,
{
    lemma_grid_part_found(lo, hi, n, p, 0);
    let k = part_of(lo, hi, n, p, 0);
    assert(0 <= k < n && in_grid_part(lo, hi, n, k, p));
    assert forall|j: int, k: int|
        0 <= j < n && 0 <= k < n && #[trigger] in_grid_part(lo, hi, n, j, p)
            && #[trigger] in_grid_part(lo, hi, n, k, p) implies j == k by {
        if j < k {
            lemma_grid_line_monotone(lo, hi, n, j + 1, k);
        }
        if k < j {
            lemma_grid_line_monotone(lo, hi, n, k + 1, j);
        }
    }
}

/// The first part at or after `k` whose far line lies beyond `p`.
spec fn part_of(lo: int, hi: int, n: int, p: int, k: int) -> int
    decreases n - k,
{
    if k + 1 >= n || p < grid_line(lo, hi, n, k + 1) {
        k
    } else {
        part_of(lo, hi, n, p, k + 1)
    }
}

proof fn lemma_grid_part_found(lo: int, hi: int, n: int, p: int, k: int)
    requires
        n > 0,
        0 <= k < n,
        grid_line(lo, hi, n, k) <= p < hi,
    ensures
        k <= part_of(lo, hi, n, p, k) < n,
        grid_line(lo, hi, n, part_of(lo, hi, n, p, k)) <= p < grid_line(
            lo,
            hi,
            n,
            part_of(lo, hi, n, p, k) + 1,
        ),
    decreases n - k,
{
    if !(k + 1 >= n || p < grid_line(lo, hi, n, k + 1)) {
        lemma_grid_part_found(lo, hi, n, p, k + 1);
    }
}

/// Computes `grid_line` for a span of 32-bit coordinates cut into at most
/// 32 parts.
pub fn grid_line_i32(lo: i32, hi: i32, n: usize, i: usize) -> (r: i32)
    requires
        0 < n <= 32,
        i <= n,
    ensures
        r == grid_line(lo as int, hi as int, n as int, i as int),
{
    if i == 0 {
        lo
    } else if i >= n {
        hi
    } else {
        let w: i64 = hi as i64 - lo as i64;
        let ni: i64 = n as i64;
        let ii: i64 = i as i64;
        assert(-0x80_0000_0000 <= lo * ni <= 0x80_0000_0000) by (nonlinear_arith)
            requires
                0 < ni <= 32,
                -0x8000_0000 <= lo <= 0x8000_0000,
        ;
        assert(-0x80_0000_0000 <= ii * w <= 0x80_0000_0000) by (nonlinear_arith)
            requires
                0 < ii <= 32,
                -0x1_0000_0000 <= w <= 0x1_0000_0000,
        ;
        let p: i64 = lo as i64 * ni + ii * w;
        let r: i64 = round_div_i64(p, ni);
        proof {
            lemma_grid_line_within(lo as int, hi as int, n as int, i as int);
        }
        r as i32
    }
}

} // verus!

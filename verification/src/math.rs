//! Small verified arithmetic helpers shared across the library: integer
//! square root and exactly-specified rounding divisions.

use vstd::prelude::*;

verus! {

/// Truncated (round-toward-zero) division of `a` by a positive `b`, the
/// semantics of machine division on signed integers.
pub open spec fn div_trunc(a: int, b: int) -> int {
    if a >= 0 {
        a / b
    } else {
        -((-a) / b)
    }
}

/// Addition on `i64` clipped to the representable range.
pub open spec fn sat_add_spec(a: int, b: int) -> int {
    if a + b > i64::MAX {
        i64::MAX as int
    } else if a + b < i64::MIN {
        i64::MIN as int
    } else {
        a + b
    }
}

/// Addition on `i64` that clips to the representable range instead of
/// overflowing.
pub fn sat_add64(a: i64, b: i64) -> (r: i64)
    ensures
        r as int == sat_add_spec(a as int, b as int),
{
    match a.checked_add(b) {
        Some(v) => v,
        None => {
            if b >= 0 {
                i64::MAX
            } else {
                i64::MIN
            }
        },
    }
}

/// Truncated division of `a` by a positive count `n`.
pub fn div_trunc64(a: i64, n: usize) -> (r: i64)
    requires
        1 <= n <= i64::MAX,
    ensures
        r as int == div_trunc(a as int, n as int),
{
    let r = a.checked_div(n as i64).unwrap();
    proof {
        if a < 0 {
            assert((a * -1) as int == -(a as int));
        }
    }
    r
}

/// The square of an integer.
pub open spec fn sq(x: int) -> int {
    x * x
}

/// Floor of the square root: the unique `r` with `r*r <= x < (r+1)*(r+1)`.
pub fn isqrt64(x: u64) -> (r: u64)
    ensures
        sq(r as int) <= x as int,
        (x as int) < sq(r as int + 1),
{
    let mut lo: u64 = 0;
    let mut hi: u64 = 4294967295;
    proof {
        assert(sq(4294967296) == 18446744073709551616int);
    }
    while lo < hi
        invariant
            lo <= hi <= 4294967295,
            sq(lo as int) <= x as int,
            sq(hi as int + 1) > x as int,
        decreases hi - lo,
    {
        let mid = lo + (hi - lo + 1) / 2;
        proof {
            assert((mid as int) * (mid as int) <= 4294967295int * 4294967295int)
                by (nonlinear_arith)
                requires
                    0 <= mid <= 4294967295,
            ;
        }
        if mid * mid <= x {
            lo = mid;
        } else {
            hi = mid - 1;
        }
    }
    lo
}

/// A component bounded by `l` in magnitude has its square bounded by `l*l`.
pub proof fn lemma_sq_bound(a: int, l: int)
    requires
        0 <= l,
        -l <= a <= l,
    ensures
        0 <= a * a,
        a * a <= l * l,
{
    assert(0 <= a * a && a * a <= l * l) by (nonlinear_arith)
        requires
            0 <= l && -l <= a && a <= l,
    ;
}

/// A product of bounded factors is bounded by the product of the bounds.
pub proof fn lemma_mul_bounds(a: int, b: int, la: int, lb: int)
    requires
        0 <= la,
        0 <= lb,
        -la <= a <= la,
        -lb <= b <= lb,
    ensures
        -(la * lb) <= a * b,
        a * b <= la * lb,
{
    assert(-(la * lb) <= a * b && a * b <= la * lb) by (nonlinear_arith)
        requires
            0 <= la && 0 <= lb && -la <= a && a <= la && -lb <= b && b <= lb,
    ;
}

/// Nearest-integer division with ties going to the even quotient.
pub open spec fn round_half_even(n: int, d: int) -> int {
    let q = n / d;
    let r = n % d;
    if 2 * r < d {
        q
    } else if 2 * r > d {
        q + 1
    } else if q % 2 == 0 {
        q
    } else {
        q + 1
    }
}

/// Nearest-integer division with ties rounding up (away from zero for
/// nonnegative values).
pub open spec fn round_half_up(n: int, d: int) -> int {
    (2 * n + d) / (2 * d)
}

/// Divide `n` by `d`, rounding to the nearest integer with ties to even.
pub fn div_round_half_even(n: u64, d: u64) -> (r: u64)
    requires
        1 <= d <= u64::MAX / 2,
    ensures
        r as int == round_half_even(n as int, d as int),
{
    let q = n / d;
    let rem = n % d;
    proof {
        vstd::arithmetic::div_mod::lemma_fundamental_div_mod(n as int, d as int);
        assert(d as int * (q as int) >= q as int) by (nonlinear_arith)
            requires
                d >= 1 && q >= 0,
        ;
    }
    if 2 * rem < d {
        q
    } else if 2 * rem > d {
        q + 1
    } else if q % 2 == 0 {
        q
    } else {
        q + 1
    }
}

/// Scaling a byte down by `num/den < 1` and rounding half-up keeps it a
/// byte.
pub proof fn lemma_scale_down_byte(c: int, num: int, den: int)
    requires
        0 <= c <= 255,
        0 <= num <= den,
        1 <= den,
    ensures
        0 <= round_half_up(c * num, den) <= c,
{
    assert(0 <= c * num) by (nonlinear_arith)
        requires
            c >= 0 && num >= 0,
    ;
    assert(2 * (c * num) + den < 2 * den * (c + 1)) by (nonlinear_arith)
        requires
            0 <= c && 0 <= num && num <= den && 1 <= den,
    ;
    assert((2 * (c * num) + den) / (2 * den) < c + 1) by (nonlinear_arith)
        requires
            den >= 1 && 2 * (c * num) + den < 2 * den * (c + 1),
    ;
}

/// Divide `n` by `d`, rounding to the nearest integer with ties up.
pub fn div_round_half_up(n: u64, d: u64) -> (r: u64)
    requires
        1 <= d <= 1000000,
        n <= 1000000000,
    ensures
        r as int == round_half_up(n as int, d as int),
{
    (2 * n + d) / (2 * d)
}

} // verus!

//! Integer HSV-to-RGB conversion used by the coloured patterns.
//!
//! Hue is in milli-degrees (`0..360000`), saturation and value in permille
//! (`0..=1000`).  The conversion is the usual sector decomposition of the
//! HSV cone carried out in fixed point, with each permille channel rounded
//! to the nearest byte.

use vstd::prelude::*;

use crate::math::lemma_mul_bounds;
use crate::rng::random_in_range;

verus! {

/// A permille channel value rounded to the nearest byte (ties up).
pub open spec fn byte_of_pm(x: int) -> int {
    (x * 255 + 500) / 1000
}

/// The three permille channels of an HSV colour, before byte rounding.
pub open spec fn hsv_channels_pm(h: int, s: int, v: int) -> (int, int, int) {
    let sector = h / 60000;
    let f = (h % 60000) / 60;
    let p = v * (1000 - s) / 1000;
    let q = v * (1000 - s * f / 1000) / 1000;
    let t = v * (1000 - s * (1000 - f) / 1000) / 1000;
    if sector == 0 {
        (v, t, p)
    } else if sector == 1 {
        (q, v, p)
    } else if sector == 2 {
        (p, v, t)
    } else if sector == 3 {
        (p, q, v)
    } else if sector == 4 {
        (t, p, v)
    } else {
        (v, p, q)
    }
}

/// The RGB bytes of an HSV colour.
pub open spec fn hsv_spec(h: int, s: int, v: int) -> [u8; 3] {
    let c = hsv_channels_pm(h, s, v);
    [byte_of_pm(c.0) as u8, byte_of_pm(c.1) as u8, byte_of_pm(c.2) as u8]
}

/// A permille value divided down stays a permille value.
proof fn lemma_pm_range(v: int, a: int)
    requires
        0 <= v <= 1000,
        0 <= a <= 1000,
    ensures
        0 <= v * a / 1000 <= 1000,
{
    lemma_mul_bounds(v, a, 1000, 1000);
    assert(v * a >= 0) by (nonlinear_arith)
        requires
            v >= 0 && a >= 0,
    ;
}

/// Convert an HSV colour to RGB bytes.
pub fn hsv_to_rgb(h: i64, s: i64, v: i64) -> (r: [u8; 3])
    requires
        0 <= h < 360000,
        0 <= s <= 1000,
        0 <= v <= 1000,
    ensures
        r == hsv_spec(h as int, s as int, v as int),
        v == 1000 ==> (r[0] == 255 || r[1] == 255 || r[2] == 255),
{
    let sector = h / 60000;
    let f = (h % 60000) / 60;
    proof {
        assert(0 <= f <= 1000);
        lemma_mul_bounds(s as int, f as int, 1000, 1000);
        lemma_mul_bounds(s as int, 1000 - f, 1000, 1000);
        lemma_pm_range(s as int, f as int);
        lemma_pm_range(s as int, 1000 - f);
        lemma_pm_range(v as int, 1000 - s);
        lemma_pm_range(v as int, 1000 - (s as int) * (f as int) / 1000);
        lemma_pm_range(v as int, 1000 - (s as int) * (1000 - f as int) / 1000);
    }
    let p_ch = v * (1000 - s) / 1000;
    let q_ch = v * (1000 - s * f / 1000) / 1000;
    let t_ch = v * (1000 - s * (1000 - f) / 1000) / 1000;
    let (c0, c1, c2): (i64, i64, i64) = if sector == 0 {
        (v, t_ch, p_ch)
    } else if sector == 1 {
        (q_ch, v, p_ch)
    } else if sector == 2 {
        (p_ch, v, t_ch)
    } else if sector == 3 {
        (p_ch, q_ch, v)
    } else if sector == 4 {
        (t_ch, p_ch, v)
    } else {
        (v, p_ch, q_ch)
    };
    [
        ((c0 * 255 + 500) / 1000) as u8,
        ((c1 * 255 + 500) / 1000) as u8,
        ((c2 * 255 + 500) / 1000) as u8,
    ]
}

/// A fully saturated, fully bright colour with a random hue.
pub fn random_saturated_colour() -> (r: [u8; 3])
    ensures
        exists|h: int| 0 <= h < 360000 && r == hsv_spec(h, 1000, 1000),
        r[0] == 255 || r[1] == 255 || r[2] == 255,
{
    let h = random_in_range(0, 359999);
    let c = hsv_to_rgb(h, 1000, 1000);
    proof {
        assert(0 <= h as int && (h as int) < 360000 && c == hsv_spec(h as int, 1000, 1000));
    }
    c
}

/// A fully bright colour with a random hue and a random saturation of at
/// least one half.
pub fn random_half_saturated_colour() -> (r: [u8; 3])
    ensures
        exists|h: int, s: int|
            0 <= h < 360000 && 500 <= s <= 1000 && r == hsv_spec(h, s, 1000),
        r[0] == 255 || r[1] == 255 || r[2] == 255,
{
    let h = random_in_range(0, 359999);
    let s = random_in_range(500, 1000);
    let c = hsv_to_rgb(h, s, 1000);
    proof {
        assert(0 <= h as int && (h as int) < 360000 && 500 <= s as int && (s as int) <= 1000 && c == hsv_spec(h as int, s as int, 1000));
    }
    c
}

} // verus!

//! The power-aware LED output stage: current estimation, brightness
//! scaling, the spine-to-connector remapping, the wire byte order, and the
//! power-cut state machine.
//!
//! The hardware adapter around this module owns the physical controller
//! and the enable line; everything it sends to the wire is computed here.

use vstd::prelude::*;

use crate::frame::all_black;
use crate::frame::LedUpdate;
use crate::math::round_half_even;
use crate::LEDS_PER_SPINE;
use crate::SPINES;

verus! {

/// Constant current drawn per logical pixel by the strip controllers, in
/// nanoamps (spread over the frame as one offset).
pub const CURRENT_OFFSET_NA: u64 = 1_500_000_000;

/// Current per unit of red per logical pixel, in nanoamps.
pub const CURRENT_PER_VAL_R_NA: u64 = 55_330;

/// Current per unit of green per logical pixel, in nanoamps.
pub const CURRENT_PER_VAL_G_NA: u64 = 49_850;

/// Current per unit of blue per logical pixel, in nanoamps.
pub const CURRENT_PER_VAL_B_NA: u64 = 55_330;

/// The supply current limit, in nanoamps.
pub const CURRENT_LIMIT_NA: u64 = 4_000_000_000;

/// Consecutive all-black frames after which power is cut.
pub const BLACK_FRAMES_TO_CUT: u8 = 3;

/// Largest predicted current of any frame: the offset plus every subpixel
/// fully lit.
pub const CURRENT_MAX_NA: u64 = 31_500_000_000;

/// Predicted current of one pixel, in nanoamps.
pub open spec fn pixel_current(px: [u8; 3]) -> int {
    px[0] * CURRENT_PER_VAL_R_NA + px[1] * CURRENT_PER_VAL_G_NA + px[2] * CURRENT_PER_VAL_B_NA
}

/// Predicted current of one row, in nanoamps.
pub open spec fn row_current(row: Seq<[u8; 3]>) -> int
    decreases row.len(),
{
    if row.len() == 0 {
        0
    } else {
        row_current(row.drop_last()) + pixel_current(row.last())
    }
}

/// Sum of the row currents of a prefix of the grid.
pub open spec fn rows_current(g: Seq<Seq<[u8; 3]>>, n: int) -> int
    decreases n,
{
    if n <= 0 {
        0
    } else {
        rows_current(g, n - 1) + row_current(g[n - 1])
    }
}

/// Predicted current of a whole frame: the offset plus every pixel's
/// contribution, in nanoamps.
pub open spec fn grid_current(g: Seq<Seq<[u8; 3]>>) -> int {
    CURRENT_OFFSET_NA + rows_current(g, g.len() as int)
}

/// The multiplicative scaling applied to every subpixel, as a rational
/// `num/den`: the brightness setpoint when below 100, else the hard
/// compressor `limit/total` when the predicted current exceeds the limit,
/// else none.  A below-100 setpoint replaces the thermal scale outright
/// rather than taking the smaller of the two; that is the output stage's
/// historical behaviour, kept deliberately.
pub open spec fn scale_pair_spec(g: Seq<Seq<[u8; 3]>>, brightness: int) -> Option<(int, int)> {
    if brightness < 100 {
        Some((brightness, 100int))
    } else if grid_current(g) > CURRENT_LIMIT_NA {
        Some((CURRENT_LIMIT_NA as int, grid_current(g)))
    } else {
        None::<(int, int)>
    }
}

/// A subpixel after scaling: the value times `num/den`, rounded to the
/// nearest byte with ties to even.
pub open spec fn scaled_spec(v: int, sc: Option<(int, int)>) -> int {
    match sc {
        None => v,
        Some((num, den)) => round_half_even(v * num, den),
    }
}

/// The wire word for one pixel: subpixel byte order `[B, G, R, 0]`, each
/// channel scaled.
pub open spec fn wire_pixel_spec(px: [u8; 3], sc: Option<(int, int)>) -> [u8; 4] {
    [
        scaled_spec(px[2] as int, sc) as u8,
        scaled_spec(px[1] as int, sc) as u8,
        scaled_spec(px[0] as int, sc) as u8,
        0u8,
    ]
}

/// A valid spine mapping: twelve connector entries, each naming a distinct
/// spine position 1 to 12.
pub open spec fn is_spine_permutation(m: Seq<usize>) -> bool {
    &&& m.len() == SPINES
    &&& forall|i: int| 0 <= i < m.len() ==> 1 <= #[trigger] m[i] <= SPINES
    &&& forall|i: int, j: int| 0 <= i < j < m.len() ==> m[i] != m[j]
}

/// The identity mapping: connector `i` carries spine position `i + 1`.
pub open spec fn identity_mapping(m: Seq<usize>) -> bool {
    m.len() == SPINES && forall|i: int| 0 <= i < m.len() ==> #[trigger] m[i] == i + 1
}

/// Scaling a byte by `num/den < 1` with ties-to-even rounding keeps it a
/// byte.
proof fn lemma_scale_even_byte(c: int, num: int, den: int)
    requires
        0 <= c <= 255,
        0 <= num < den,
    ensures
        0 <= round_half_even(c * num, den) <= 255,
{
    assert(0 <= c * num) by (nonlinear_arith)
        requires
            0 <= c && 0 <= num,
    ;
    assert(c * num <= 255 * den - 255) by (nonlinear_arith)
        requires
            0 <= c <= 255 && 0 <= num && num <= den - 1,
    ;
    assert((c * num) / den < 255 || (c * num) % den == 0 && (c * num) / den <= 255)
        by (nonlinear_arith)
        requires
            den >= 1 && 0 <= c * num && c * num <= 255 * den - 255,
    ;
    assert(0 <= (c * num) / den) by (nonlinear_arith)
        requires
            den >= 1 && 0 <= c * num,
    ;
}

/// Any well-shaped frame's predicted current fits the hardware bound.
pub proof fn lemma_grid_current_bound(g: Seq<Seq<[u8; 3]>>)
    requires
        g.len() == SPINES,
        forall|s: int| 0 <= s < g.len() ==> (#[trigger] g[s]).len() == LEDS_PER_SPINE,
    ensures
        CURRENT_OFFSET_NA <= grid_current(g) <= CURRENT_MAX_NA,
{
    lemma_rows_current_bound(g, SPINES as int);
}

/// Rows contribute between zero and the per-row maximum each.
proof fn lemma_rows_current_bound(g: Seq<Seq<[u8; 3]>>, n: int)
    requires
        0 <= n <= g.len(),
        forall|s: int| 0 <= s < g.len() ==> (#[trigger] g[s]).len() == LEDS_PER_SPINE,
    ensures
        0 <= rows_current(g, n) <= n * 2_500_000_000,
    decreases n,
{
    if n > 0 {
        lemma_rows_current_bound(g, n - 1);
        lemma_row_current_bound(g[n - 1], LEDS_PER_SPINE as int);
        assert((n - 1) * 2_500_000_000 + 2_500_000_000 == n * 2_500_000_000) by (nonlinear_arith);
    }
}

/// A row prefix contributes between zero and the per-pixel maximum each.
proof fn lemma_row_current_bound(row: Seq<[u8; 3]>, n: int)
    requires
        0 <= n == row.len() <= LEDS_PER_SPINE,
    ensures
        0 <= row_current(row) <= n * 41_000_000,
    decreases n,
{
    if n > 0 {
        lemma_row_current_bound(row.drop_last(), n - 1);
        assert((n - 1) * 41_000_000 + 41_000_000 == n * 41_000_000) by (nonlinear_arith);
    }
}

/// Validate a spine mapping: true exactly when it is a permutation of the
/// positions 1 to 12 (equivalently, when sorting it yields 1 to 12).
/// Startup must fail on a mapping this rejects.
pub fn check_mapping(map: &Vec<usize>) -> (r: bool)
    ensures
        r == is_spine_permutation(map@),
{
    if map.len() != SPINES {
        return false;
    }
    let mut seen: Vec<bool> = vec![false; SPINES];
    let mut i: usize = 0;
    while i < SPINES
        invariant
            map@.len() == SPINES,
            seen@.len() == SPINES,
            i <= SPINES,
            forall|v: int|
                0 <= v < SPINES ==> (#[trigger] seen@[v] == exists|j: int|
                    0 <= j < i && #[trigger] map@[j] == v + 1),
            forall|j: int| 0 <= j < i ==> 1 <= #[trigger] map@[j] <= SPINES,
            forall|j1: int, j2: int| 0 <= j1 < j2 < i ==> map@[j1] != map@[j2],
        decreases SPINES - i,
    {
        let v = map[i];
        if v < 1 || v > SPINES {
            return false;
        }
        if seen[v - 1] {
            proof {
                let j = choose|j: int| 0 <= j < i && map@[j] == v;
                assert(map@[j] == map@[i as int]);
            }
            return false;
        }
        seen[v - 1] = true;
        i += 1;
    }
    true
}

/// Predicted supply current for a frame, in nanoamps.
pub fn total_current(leds: &LedUpdate) -> (r: u64)
    requires
        leds.wf(),
    ensures
        r == grid_current(leds.grid()),
        r <= CURRENT_MAX_NA,
{
    let mut total: u64 = CURRENT_OFFSET_NA;
    let mut s: usize = 0;
    while s < SPINES
        invariant
            leds.wf(),
            s <= SPINES,
            total == CURRENT_OFFSET_NA + rows_current(leds.grid(), s as int),
            total <= CURRENT_OFFSET_NA + s * 2_500_000_000,
        decreases SPINES - s,
    {
        let ghost row = leds.grid()[s as int];
        let mut row_total: u64 = 0;
        let mut k: usize = 0;
        while k < LEDS_PER_SPINE
            invariant
                leds.wf(),
                s < SPINES,
                k <= LEDS_PER_SPINE,
                row == leds.grid()[s as int],
                row_total == row_current(row.take(k as int)),
                row_total <= k * 41_000_000,
            decreases LEDS_PER_SPINE - k,
        {
            let px = leds.get(s, k);
            let c: u64 = (px[0] as u64) * CURRENT_PER_VAL_R_NA + (px[1] as u64)
                * CURRENT_PER_VAL_G_NA + (px[2] as u64) * CURRENT_PER_VAL_B_NA;
            proof {
                assert(row.take(k as int + 1).drop_last() =~= row.take(k as int));
                assert(row.take(k as int + 1).last() == row[k as int]);
            }
            row_total = row_total + c;
            k += 1;
        }
        proof {
            assert(row.take(LEDS_PER_SPINE as int) =~= row);
        }
        total = total + row_total;
        s += 1;
    }
    total
}

/// The hard compressor: when the predicted current exceeds the limit, the
/// scaling `limit/total` to apply to every subpixel; `None` when no
/// limiting is needed.
pub fn get_power_limit_scaling(leds: &LedUpdate) -> (r: Option<(u64, u64)>)
    requires
        leds.wf(),
    ensures
        grid_current(leds.grid()) > CURRENT_LIMIT_NA ==> r == Some(
            (CURRENT_LIMIT_NA, grid_current(leds.grid()) as u64),
        ),
        grid_current(leds.grid()) <= CURRENT_LIMIT_NA ==> r is None,
        grid_current(leds.grid()) <= CURRENT_MAX_NA,
{
    let total = total_current(leds);
    if total <= CURRENT_LIMIT_NA {
        None
    } else {
        Some((CURRENT_LIMIT_NA, total))
    }
}

/// Apply scaling to a subpixel value, if required.
pub fn scale_val(value: u8, scaling: Option<(u64, u64)>) -> (r: u8)
    requires
        scaling matches Some((num, den)) ==> num < den && den <= CURRENT_MAX_NA,
    ensures
        r == scaled_spec(
            value as int,
            match scaling {
                None => None::<(int, int)>,
                Some((num, den)) => Some((num as int, den as int)),
            },
        ) as u8,
{
    match scaling {
        Some((num, den)) => {
            proof {
                crate::math::lemma_mul_bounds(value as int, num as int, 255, CURRENT_MAX_NA as int);
                lemma_scale_even_byte(value as int, num as int, den as int);
            }
            crate::math::div_round_half_even((value as u64) * num, den) as u8
        },
        None => value,
    }
}

/// The scaling in force for a frame under a brightness setpoint: the
/// brightness fraction when below 100, else the hard compressor when
/// needed.
pub fn effective_scaling(leds: &LedUpdate, brightness: u8) -> (r: Option<(u64, u64)>)
    requires
        leds.wf(),
        brightness <= 100,
    ensures
        r == match scale_pair_spec(leds.grid(), brightness as int) {
            None => None::<(u64, u64)>,
            Some((num, den)) => Some((num as u64, den as u64)),
        },
        r matches Some((num, den)) ==> num < den && den <= CURRENT_MAX_NA,
        grid_current(leds.grid()) <= CURRENT_MAX_NA,
{
    proof {
        lemma_grid_current_bound(leds.grid());
    }
    if brightness < 100 {
        Some((brightness as u64, 100))
    } else {
        get_power_limit_scaling(leds)
    }
}

/// Build the wire words for a frame: for each physical connector, the
/// mapped logical spine's pixels, each scaled and emitted in `[B, G, R, 0]`
/// byte order.  The first half of the result is the first output channel,
/// the second half the second.
pub fn build_wire_frame(leds: &LedUpdate, map: &Vec<usize>, brightness: u8) -> (r: Vec<[u8; 4]>)
    requires
        leds.wf(),
        is_spine_permutation(map@),
        brightness <= 100,
    ensures
        r@.len() == SPINES * LEDS_PER_SPINE,
        forall|h: int, k: int|
            0 <= h < SPINES && 0 <= k < LEDS_PER_SPINE ==> #[trigger] r@[h * LEDS_PER_SPINE + k]
                == wire_pixel_spec(
                leds.grid()[map@[h] - 1][k],
                scale_pair_spec(leds.grid(), brightness as int),
            ),
{
    let scaling = effective_scaling(leds, brightness);
    let mut out: Vec<[u8; 4]> = Vec::new();
    let mut h: usize = 0;
    while h < SPINES
        invariant
            leds.wf(),
            is_spine_permutation(map@),
            brightness <= 100,
            scaling == match scale_pair_spec(leds.grid(), brightness as int) {
                None => None::<(u64, u64)>,
                Some((num, den)) => Some((num as u64, den as u64)),
            },
            scaling matches Some((num, den)) ==> num < den && den <= CURRENT_MAX_NA,
            grid_current(leds.grid()) <= CURRENT_MAX_NA,
            h <= SPINES,
            out@.len() == h * LEDS_PER_SPINE,
            forall|q: int, k: int|
                0 <= q < h && 0 <= k < LEDS_PER_SPINE ==> #[trigger] out@[q * LEDS_PER_SPINE + k]
                    == wire_pixel_spec(
                    leds.grid()[map@[q] - 1][k],
                    scale_pair_spec(leds.grid(), brightness as int),
                ),
        decreases SPINES - h,
    {
        let spine_logical = map[h] - 1;
        let mut k: usize = 0;
        while k < LEDS_PER_SPINE
            invariant
                leds.wf(),
                is_spine_permutation(map@),
                brightness <= 100,
                scaling == match scale_pair_spec(leds.grid(), brightness as int) {
                    None => None::<(u64, u64)>,
                    Some((num, den)) => Some((num as u64, den as u64)),
                },
                scaling matches Some((num, den)) ==> num < den && den <= CURRENT_MAX_NA,
                grid_current(leds.grid()) <= CURRENT_MAX_NA,
                h < SPINES,
                spine_logical == map@[h as int] - 1,
                spine_logical < SPINES,
                k <= LEDS_PER_SPINE,
                out@.len() == h * LEDS_PER_SPINE + k,
                forall|q: int, m: int|
                    0 <= q < h && 0 <= m < LEDS_PER_SPINE ==> #[trigger] out@[q * LEDS_PER_SPINE
                        + m] == wire_pixel_spec(
                        leds.grid()[map@[q] - 1][m],
                        scale_pair_spec(leds.grid(), brightness as int),
                    ),
                forall|m: int|
                    0 <= m < k ==> #[trigger] out@[h as int * LEDS_PER_SPINE + m]
                        == wire_pixel_spec(
                        leds.grid()[map@[h as int] - 1][m],
                        scale_pair_spec(leds.grid(), brightness as int),
                    ),
            decreases LEDS_PER_SPINE - k,
        {
            let px = leds.get(spine_logical, k);
            let w: [u8; 4] = [
                scale_val(px[2], scaling),
                scale_val(px[1], scaling),
                scale_val(px[0], scaling),
                0u8,
            ];
            proof {
                assert(w == wire_pixel_spec(
                    leds.grid()[map@[h as int] - 1][k as int],
                    scale_pair_spec(leds.grid(), brightness as int),
                ));
            }
            out.push(w);
            k += 1;
        }
        h += 1;
    }
    out
}

/// Law: with the identity spine mapping, full brightness and no current
/// limiting, the wire holds exactly the frame's bytes, pixel for pixel in
/// `[B, G, R, 0]` order.
pub proof fn lemma_identity_mapping_bit_exact(
    g: Seq<Seq<[u8; 3]>>,
    m: Seq<usize>,
    h: int,
    k: int,
)
    requires
        identity_mapping(m),
        grid_current(g) <= CURRENT_LIMIT_NA,
        0 <= h < SPINES,
        0 <= k < LEDS_PER_SPINE,
        g.len() == SPINES,
        g[h].len() == LEDS_PER_SPINE,
    ensures
        wire_pixel_spec(g[m[h] - 1][k], scale_pair_spec(g, 100)) == [
            g[h][k][2],
            g[h][k][1],
            g[h][k][0],
            0u8,
        ],
{
    assert(m[h] == h + 1);
    assert(scale_pair_spec(g, 100) is None);
}

/// What the power-cut decision asks of the hardware.
#[derive(Clone, Copy, Debug, PartialEq, Eq, Structural)]
pub enum PowerAction {
    /// Rebuild the controller and raise the enable line.
    PowerUp,
    /// Blank once, release the controller, drop the enable line and park
    /// the data lines high.
    PowerDown,
    /// Keep the current power state.
    NoChange,
}

/// The LED power state machine: power is cut after three consecutive
/// all-black frames and restored on the next frame that is not.
pub struct PowerGate {
    /// Consecutive all-black frames seen, saturating at the cut threshold.
    pub black_frames: u8,
    /// Whether the controller is up and the enable line high.
    pub powered: bool,
}

/// The power state that one observed frame leads to.
pub open spec fn gate_next(g: PowerGate, black: bool) -> PowerGate {
    let bf: int = if black {
        if g.black_frames() < BLACK_FRAMES_TO_CUT {
            g.black_frames() + 1
        } else {
            g.black_frames() as int
        }
    } else {
        0
    };
    PowerGate { black_frames: bf as u8, powered: bf < BLACK_FRAMES_TO_CUT }
}

impl PowerGate {
    /// Consecutive all-black frames seen.
    pub open spec fn black_frames(&self) -> int {
        self.black_frames as int
    }

    /// Whether pixels are being emitted.
    pub open spec fn is_powered(&self) -> bool {
        self.powered
    }

    /// Structural invariant.
    pub open spec fn wf(&self) -> bool {
        0 <= self.black_frames() <= BLACK_FRAMES_TO_CUT
    }

    /// A new gate: unpowered, with no frames seen.
    pub fn new() -> (r: PowerGate)
        ensures
            r.wf(),
            r.black_frames() == 0,
            !r.is_powered(),
    {
        PowerGate { black_frames: 0, powered: false }
    }

    /// Observe one frame and decide the power action: count consecutive
    /// all-black frames, cut power at the third, and restore power on any
    /// frame before that (or any non-black frame).
    pub fn observe(&mut self, frame: &LedUpdate) -> (action: PowerAction)
        requires
            old(self).wf(),
            frame.wf(),
        ensures
            final(self).wf(),
            *final(self) == gate_next(*old(self), all_black(frame.grid())),
            final(self).is_powered() == (final(self).black_frames() < BLACK_FRAMES_TO_CUT),
            action == PowerAction::PowerUp <==> (!old(self).is_powered()
                && final(self).is_powered()),
            action == PowerAction::PowerDown <==> (old(self).is_powered()
                && !final(self).is_powered()),
    {
        let was_powered = self.powered;
        if frame.is_all_black() {
            if self.black_frames < BLACK_FRAMES_TO_CUT {
                self.black_frames = self.black_frames + 1;
            }
        } else {
            self.black_frames = 0;
        }
        self.powered = self.black_frames < BLACK_FRAMES_TO_CUT;
        if !was_powered && self.powered {
            PowerAction::PowerUp
        } else if was_powered && !self.powered {
            PowerAction::PowerDown
        } else {
            PowerAction::NoChange
        }
    }
}

/// Law: three consecutive all-black frames always leave the power state
/// off, wherever it started; no pixel is emitted past the third such
/// frame.
pub proof fn lemma_three_black_frames_cut(g: PowerGate)
    requires
        g.wf(),
    ensures
        !gate_next(gate_next(gate_next(g, true), true), true).is_powered(),
{
}

} // verus!

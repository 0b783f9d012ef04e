//! Colourful worms appear from wormholes, travel a short distance, then
//! disappear again.

use vstd::prelude::*;

use crate::common_structs::GpsFix;
use crate::common_structs::ImuReadings;
use crate::frame::black;
use crate::frame::LedUpdate;
use crate::hsv::random_saturated_colour;
use crate::math::lemma_scale_down_byte;
use crate::math::round_half_up;
use crate::rng::random_in_range;
use crate::LEDS_PER_SPINE;
use crate::SPINES;

verus! {

/// Pixels of white fading ahead of the worm's head.
pub const WORM_HEAD_FADE_LEN: i64 = 2;

/// Pixels of fade toward black behind the worm's body.
pub const WORM_TAIL_FADE_LEN: i64 = 10;

/// Length of the solid worm body.
pub const WORM_LEN: i64 = 20;

/// A colour scaled by `num/den`, each component rounded to the nearest
/// byte.
pub open spec fn fade_spec(c: [u8; 3], num: int, den: int) -> [u8; 3] {
    [
        round_half_up(c[0] * num, den) as u8,
        round_half_up(c[1] * num, den) as u8,
        round_half_up(c[2] * num, den) as u8,
    ]
}

/// Scale a colour by `num/den`.
fn fade_colour(c: [u8; 3], num: i64, den: i64) -> (r: [u8; 3])
    requires
        0 <= num <= den,
        1 <= den <= 1000,
    ensures
        r == fade_spec(c, num as int, den as int),
{
    proof {
        lemma_scale_down_byte(c[0] as int, num as int, den as int);
        lemma_scale_down_byte(c[1] as int, num as int, den as int);
        lemma_scale_down_byte(c[2] as int, num as int, den as int);
        crate::math::lemma_mul_bounds(c[0] as int, num as int, 255, 1000);
        crate::math::lemma_mul_bounds(c[1] as int, num as int, 255, 1000);
        crate::math::lemma_mul_bounds(c[2] as int, num as int, 255, 1000);
    }
    let r0 = crate::math::div_round_half_up((c[0] as u64) * (num as u64), den as u64);
    let r1 = crate::math::div_round_half_up((c[1] as u64) * (num as u64), den as u64);
    let r2 = crate::math::div_round_half_up((c[2] as u64) * (num as u64), den as u64);
    [r0 as u8, r1 as u8, r2 as u8]
}

/// One worm inside its bounded wormhole range on a spine.
#[derive(Clone, Copy, Debug)]
pub struct WormHole {
    /// Which spine this wormhole is on.
    pub spine: usize,
    /// Start position of the visible range.
    pub start: i64,
    /// End position (exclusive) of the visible range.
    pub end: i64,
    /// Signed inverse speed: the worm advances one pixel every
    /// `abs(velocity)` frames, in the direction of the sign.
    pub velocity: i64,
    /// Position of the worm's head (may run outside the visible range).
    pub worm_head_pos: i64,
    /// The colour of the worm's body.
    pub colour: [u8; 3],
    /// Frames since the head last advanced; ranges over `0..abs(velocity)`.
    pub fractional_head_pos: i64,
}

/// The worm's fields are in range.
pub open spec fn worm_wf(w: WormHole) -> bool {
    &&& w.spine < SPINES
    &&& 0 <= w.start <= w.end <= LEDS_PER_SPINE
    &&& (1 <= w.velocity <= 3 || -3 <= w.velocity <= -1)
    &&& (w.velocity > 0 ==> w.start - 1 <= w.worm_head_pos <= w.end + 33)
    &&& (w.velocity < 0 ==> w.start - 33 <= w.worm_head_pos <= w.end)
    &&& 0 <= w.fractional_head_pos < if w.velocity >= 0 {
        w.velocity as int
    } else {
        -(w.velocity as int)
    }
}

/// The worm has entirely left its visible range and can be discarded.
pub open spec fn finished_spec(w: WormHole) -> bool {
    if w.velocity > 0 {
        w.worm_head_pos > w.end + WORM_LEN + WORM_HEAD_FADE_LEN + WORM_TAIL_FADE_LEN
    } else {
        w.worm_head_pos < w.start - WORM_LEN - WORM_HEAD_FADE_LEN - WORM_TAIL_FADE_LEN
    }
}

/// Two wormholes share a spine and their ranges touch.
pub open spec fn overlaps_spec(a: WormHole, b: WormHole) -> bool {
    a.spine == b.spine && a.end >= b.start && b.end >= a.start
}

/// One time step of a worm: the fractional counter advances, and each time
/// it reaches `abs(velocity)` the head moves one pixel.
pub open spec fn step_worm(w: WormHole) -> WormHole {
    let mag = if w.velocity >= 0 {
        w.velocity as int
    } else {
        -(w.velocity as int)
    };
    if w.fractional_head_pos + 1 == mag {
        WormHole {
            worm_head_pos: if w.velocity > 0 {
                (w.worm_head_pos + 1) as i64
            } else {
                (w.worm_head_pos - 1) as i64
            },
            fractional_head_pos: 0,
            ..w
        }
    } else {
        WormHole { fractional_head_pos: (w.fractional_head_pos + 1) as i64, ..w }
    }
}

/// The pixel a worm shows at offset `idx` of its spine (only consulted
/// inside the visible range): a white head with a short fade ahead of it, a
/// solid body, and a tail fading to black.
pub open spec fn worm_pixel(w: WormHole, idx: int) -> [u8; 3] {
    let h = w.worm_head_pos as int;
    if w.velocity > 0 {
        if idx >= h + WORM_HEAD_FADE_LEN {
            black()
        } else if idx > h {
            fade_spec([255u8, 255u8, 255u8], WORM_HEAD_FADE_LEN - (idx - h), WORM_HEAD_FADE_LEN as int)
        } else if idx == h {
            [255u8, 255u8, 255u8]
        } else if idx > h - WORM_LEN {
            w.colour
        } else if idx >= h - WORM_LEN - WORM_TAIL_FADE_LEN {
            fade_spec(w.colour, idx - (h - WORM_LEN - WORM_TAIL_FADE_LEN), WORM_TAIL_FADE_LEN as int)
        } else {
            black()
        }
    } else {
        if idx <= h - WORM_HEAD_FADE_LEN {
            black()
        } else if idx < h {
            fade_spec([255u8, 255u8, 255u8], WORM_HEAD_FADE_LEN - (h - idx), WORM_HEAD_FADE_LEN as int)
        } else if idx == h {
            [255u8, 255u8, 255u8]
        } else if idx < h + WORM_LEN {
            w.colour
        } else if idx <= h + WORM_LEN + WORM_TAIL_FADE_LEN {
            fade_spec(w.colour, (h + WORM_LEN + WORM_TAIL_FADE_LEN) - idx, WORM_TAIL_FADE_LEN as int)
        } else {
            black()
        }
    }
}

/// A pixel the wormholes pattern may show at `(s, k)`: dark, or the pixel
/// of a worm whose range covers it.
pub open spec fn worms_pixel_ok(ws: Seq<WormHole>, px: [u8; 3], s: int, k: int) -> bool {
    ||| px == black()
    ||| exists|j: int|
        0 <= j < ws.len() && (#[trigger] ws[j]).spine == s && ws[j].start <= k < ws[j].end && px
            == worm_pixel(ws[j], k)
}

/// A worm's visible range covers pixel `(s, k)`.
pub open spec fn worm_covers(w: WormHole, s: int, k: int) -> bool {
    w.spine == s && w.start <= k < w.end
}

/// The worms advanced one time step each.
pub open spec fn stepped_worms(ws: Seq<WormHole>) -> Seq<WormHole> {
    ws.map_values(|w: WormHole| step_worm(w))
}

/// The live worms kept after a frame: the finished ones dropped, order
/// kept.
pub open spec fn prune_finished(ws: Seq<WormHole>) -> Seq<WormHole>
    decreases ws.len(),
{
    if ws.len() == 0 {
        Seq::<WormHole>::empty()
    } else if finished_spec(ws.last()) {
        prune_finished(ws.drop_last())
    } else {
        prune_finished(ws.drop_last()).push(ws.last())
    }
}

/// `mid` is a worm list after one optional spawn: either unchanged, or one
/// new live worm appended that overlaps none of the others.
pub open spec fn spawn_extends(ws: Seq<WormHole>, mid: Seq<WormHole>) -> bool {
    ||| mid == ws
    ||| {
        &&& mid.len() == ws.len() + 1
        &&& mid.take(ws.len() as int) == ws
        &&& worm_wf(mid.last())
        &&& !finished_spec(mid.last())
        &&& forall|j: int|
            0 <= j < ws.len() ==> !overlaps_spec(#[trigger] ws[j], mid.last())
    }
}

/// A finished worm shows nothing inside its range.
proof fn lemma_finished_is_dark(w: WormHole, k: int)
    requires
        worm_wf(w),
        w.start <= k < w.end,
        finished_spec(w),
    ensures
        worm_pixel(w, k) == black(),
{
}

impl WormHole {
    /// Try to make a new wormhole with random properties that does not
    /// overlap any existing one; gives up after ten attempts.
    pub fn new(existing_wormholes: &Vec<WormHole>) -> (r: Option<WormHole>)
        ensures
            match r {
                Some(w) => {
                    &&& worm_wf(w)
                    &&& !finished_spec(w)
                    &&& 0 <= w.start <= 53
                    &&& w.start < w.end <= 59
                    &&& w.worm_head_pos == if w.velocity > 0 {
                        w.start
                    } else {
                        (w.end - 1) as i64
                    }
                    &&& w.fractional_head_pos == 0
                    &&& forall|j: int|
                        0 <= j < existing_wormholes@.len() ==> !overlaps_spec(
                            #[trigger] existing_wormholes@[j],
                            w,
                        )
                },
                None => true,
            },
            existing_wormholes@.len() == 0 ==> r is Some,
    {
        let mut attempt: usize = 0;
        while attempt < 10
            invariant
                attempt <= 10,
                attempt > 0 ==> existing_wormholes@.len() > 0,
            decreases 10 - attempt,
        {
            let start = random_in_range(0, 53);
            let mut end = random_in_range(0, 58);
            if end > start + 5 {
                end = start + 5;
            }
            if end < start + 10 {
                end = start + 10;
            }
            if end > 59 {
                end = 59;
            }
            let speed = random_in_range(1, 3);
            let velocity = if random_in_range(0, 1) == 1 {
                speed
            } else {
                -speed
            };
            let candidate = WormHole {
                spine: random_in_range(0, 11) as usize,
                start,
                end,
                velocity,
                worm_head_pos: if velocity > 0 {
                    start
                } else {
                    end - 1
                },
                colour: random_saturated_colour(),
                fractional_head_pos: 0,
            };
            let mut overlap = false;
            let mut j: usize = 0;
            while j < existing_wormholes.len()
                invariant
                    j <= existing_wormholes@.len(),
                    overlap ==> existing_wormholes@.len() > 0,
                    !overlap ==> forall|q: int|
                        0 <= q < j ==> !overlaps_spec(#[trigger] existing_wormholes@[q], candidate),
                decreases existing_wormholes@.len() - j,
            {
                let e = &existing_wormholes[j];
                if e.spine == candidate.spine && e.end >= candidate.start && candidate.end
                    >= e.start {
                    overlap = true;
                }
                j += 1;
            }
            if !overlap {
                return Some(candidate);
            }
            attempt += 1;
        }
        None
    }

    /// Whether this wormhole's range touches another's on the same spine.
    pub fn overlaps(&self, other: &WormHole) -> (r: bool)
        ensures
            r == overlaps_spec(*self, *other),
    {
        self.spine == other.spine && self.end >= other.start && other.end >= self.start
    }

    /// Apply a time step to this wormhole.
    pub fn step(&mut self)
        requires
            worm_wf(*old(self)),
            !finished_spec(*old(self)),
        ensures
            *final(self) == step_worm(*old(self)),
            worm_wf(*final(self)),
    {
        self.fractional_head_pos = self.fractional_head_pos + 1;
        let mag = if self.velocity >= 0 {
            self.velocity
        } else {
            -self.velocity
        };
        if self.fractional_head_pos == mag {
            if self.velocity > 0 {
                self.worm_head_pos = self.worm_head_pos + 1;
            } else {
                self.worm_head_pos = self.worm_head_pos - 1;
            }
            self.fractional_head_pos = 0;
        }
    }

    /// Render this wormhole onto the frame: pixels outside the visible
    /// range are left alone, pixels inside show the worm.
    pub fn render(&self, leds: &mut LedUpdate)
        requires
            old(leds).wf(),
            worm_wf(*self),
        ensures
            final(leds).wf(),
            forall|q: int| 0 <= q < SPINES && q != self.spine ==> #[trigger] final(leds).grid()[q]
                == old(leds).grid()[q],
            forall|k: int|
                0 <= k < LEDS_PER_SPINE && (k < self.start || k >= self.end)
                    ==> #[trigger] final(leds).grid()[self.spine as int][k] == old(
                    leds,
                ).grid()[self.spine as int][k],
            forall|k: int|
                self.start <= k < self.end ==> #[trigger] final(leds).grid()[self.spine as int][k]
                    == worm_pixel(*self, k),
    {
        let mut k: usize = 0;
        while k < LEDS_PER_SPINE
            invariant
                leds.wf(),
                worm_wf(*self),
                k <= LEDS_PER_SPINE,
                forall|q: int| 0 <= q < SPINES && q != self.spine ==> #[trigger] leds.grid()[q]
                    == old(leds).grid()[q],
                forall|j: int|
                    0 <= j < LEDS_PER_SPINE && (j < self.start || j >= self.end)
                        ==> #[trigger] leds.grid()[self.spine as int][j] == old(
                        leds,
                    ).grid()[self.spine as int][j],
                forall|j: int|
                    self.start <= j < self.end && j < k
                        ==> #[trigger] leds.grid()[self.spine as int][j] == worm_pixel(*self, j),
            decreases LEDS_PER_SPINE - k,
        {
            let idx = k as i64;
            if idx >= self.start && idx < self.end {
                let h = self.worm_head_pos;
                let px: [u8; 3] = if self.velocity > 0 {
                    if idx >= h + WORM_HEAD_FADE_LEN {
                        [0u8, 0u8, 0u8]
                    } else if idx > h {
                        fade_colour([255u8, 255u8, 255u8], WORM_HEAD_FADE_LEN - (idx - h), WORM_HEAD_FADE_LEN)
                    } else if idx == h {
                        [255u8, 255u8, 255u8]
                    } else if idx > h - WORM_LEN {
                        self.colour
                    } else if idx >= h - WORM_LEN - WORM_TAIL_FADE_LEN {
                        fade_colour(self.colour, idx - (h - WORM_LEN - WORM_TAIL_FADE_LEN), WORM_TAIL_FADE_LEN)
                    } else {
                        [0u8, 0u8, 0u8]
                    }
                } else {
                    if idx <= h - WORM_HEAD_FADE_LEN {
                        [0u8, 0u8, 0u8]
                    } else if idx < h {
                        fade_colour([255u8, 255u8, 255u8], WORM_HEAD_FADE_LEN - (h - idx), WORM_HEAD_FADE_LEN)
                    } else if idx == h {
                        [255u8, 255u8, 255u8]
                    } else if idx < h + WORM_LEN {
                        self.colour
                    } else if idx <= h + WORM_LEN + WORM_TAIL_FADE_LEN {
                        fade_colour(self.colour, (h + WORM_LEN + WORM_TAIL_FADE_LEN) - idx, WORM_TAIL_FADE_LEN)
                    } else {
                        [0u8, 0u8, 0u8]
                    }
                };
                proof {
                    assert(px == worm_pixel(*self, k as int));
                }
                leds.set(self.spine, k, px);
            }
            k += 1;
        }
    }

    /// Whether this wormhole is finished and should be discarded.
    pub fn finished(&self) -> (r: bool)
        requires
            worm_wf(*self),
        ensures
            r == finished_spec(*self),
    {
        if self.velocity > 0 {
            self.worm_head_pos > self.end + WORM_LEN + WORM_HEAD_FADE_LEN + WORM_TAIL_FADE_LEN
        } else {
            self.worm_head_pos < self.start - WORM_LEN - WORM_HEAD_FADE_LEN - WORM_TAIL_FADE_LEN
        }
    }
}

/// The wormholes pattern: short-lived worms traversing bounded ranges of
/// random spines.
pub struct WormHoles {
    leds: LedUpdate,
    wormholes: Vec<WormHole>,
}

impl WormHoles {
    /// The frame is in shape, every stored worm is live and in range, and
    /// no two worms' ranges touch.
    pub closed spec fn wf(&self) -> bool {
        &&& self.leds.wf()
        &&& forall|j: int|
            0 <= j < self.wormholes@.len() ==> worm_wf(#[trigger] self.wormholes@[j])
                && !finished_spec(self.wormholes@[j])
        &&& forall|a: int, b: int|
            0 <= a < b < self.wormholes@.len() ==> !overlaps_spec(
                self.wormholes@[a],
                self.wormholes@[b],
            )
    }

    /// The internally owned frame.
    pub closed spec fn frame(&self) -> Seq<Seq<[u8; 3]>> {
        self.leds.grid()
    }

    /// The live worms.
    pub closed spec fn worms(&self) -> Seq<WormHole> {
        self.wormholes@
    }

    pub fn new() -> (r: WormHoles)
        ensures
            r.wf(),
            r.worms().len() == 0,
    {
        WormHoles { leds: LedUpdate::new_black(), wormholes: Vec::new() }
    }

    /// A borrow of the internally owned frame.
    pub fn frame_ref(&self) -> (r: &LedUpdate)
        requires
            self.wf(),
        ensures
            r.grid() == self.frame(),
            r.wf(),
    {
        &self.leds
    }

    /// One frame: with probability one fifth try to spawn a worm that
    /// overlaps no existing one; then repaint the frame from scratch with
    /// every worm advanced one time step, and discard finished worms.  The
    /// remaining worms are exactly the advanced live worms (plus at most
    /// the one spawned), each painted over its range, with everything else
    /// dark.
    #[verifier::rlimit(80)]
    pub fn step(&mut self, _gps: &Option<GpsFix>, _imu: &ImuReadings) -> (r: &LedUpdate)
        requires
            old(self).wf(),
        ensures
            final(self).wf(),
            exists|mid: Seq<WormHole>|
                spawn_extends(old(self).worms(), mid) && #[trigger] final(self).worms()
                    == prune_finished(stepped_worms(mid)),
            forall|j: int, k: int|
                0 <= j < final(self).worms().len() && final(self).worms()[j].start <= k
                    < final(self).worms()[j].end
                    ==> final(self).frame()[final(self).worms()[j].spine as int][k]
                    == #[trigger] worm_pixel(final(self).worms()[j], k),
            forall|s: int, k: int|
                0 <= s < SPINES && 0 <= k < LEDS_PER_SPINE ==> worms_pixel_ok(
                    final(self).worms(),
                    #[trigger] final(self).frame()[s][k],
                    s,
                    k,
                ),
            r.grid() == final(self).frame(),
            r.wf(),
    {
        let ghost pre = self.wormholes@;
        if random_in_range(0, 4) == 0 {
            if let Some(new_wormhole) = WormHole::new(&self.wormholes) {
                self.wormholes.push(new_wormhole);
                proof {
                    assert(self.wormholes@.take(pre.len() as int) =~= pre);
                }
            }
        }
        let ghost mid = self.wormholes@;
        proof {
            assert(spawn_extends(pre, mid));
            assert forall|a: int, b: int| 0 <= a < b < mid.len() implies !overlaps_spec(
                mid[a],
                mid[b],
            ) by {
                if b == pre.len() as int {
                    assert(mid[a] == pre[a]);
                }
            }
        }
        self.leds.fill([0u8, 0u8, 0u8]);
        let ghost count = mid.len();
        let mut i: usize = 0;
        while i < self.wormholes.len()
            invariant
                self.leds.wf(),
                mid.len() == count,
                self.wormholes@.len() == count,
                i <= count,
                forall|j: int| 0 <= j < count ==> worm_wf(#[trigger] mid[j]) && !finished_spec(
                    mid[j],
                ),
                forall|a: int, b: int|
                    0 <= a < b < count ==> !overlaps_spec(mid[a], mid[b]),
                forall|j: int| 0 <= j < i ==> #[trigger] self.wormholes@[j] == step_worm(mid[j]),
                forall|j: int| 0 <= j < i ==> worm_wf(#[trigger] self.wormholes@[j]),
                forall|j: int| (i as int) <= j < count ==> #[trigger] self.wormholes@[j] == mid[j],
                forall|j: int, k: int|
                    0 <= j < i && self.wormholes@[j].start <= k < self.wormholes@[j].end
                        ==> self.leds.grid()[self.wormholes@[j].spine as int][k]
                        == #[trigger] worm_pixel(self.wormholes@[j], k),
                forall|s: int, k: int|
                    0 <= s < SPINES && 0 <= k < LEDS_PER_SPINE && (forall|j: int|
                        0 <= j < i ==> !worm_covers(#[trigger] self.wormholes@[j], s, k))
                        ==> #[trigger] self.leds.grid()[s][k] == black(),
            decreases count - i,
        {
            let ghost grid_pre = self.leds.grid();
            let ghost worms_pre = self.wormholes@;
            let mut w = self.wormholes[i];
            w.step();
            w.render(&mut self.leds);
            self.wormholes[i] = w;
            proof {
                let ii = i as int;
                assert(w == step_worm(mid[ii]));
                assert(w.spine == mid[ii].spine && w.start == mid[ii].start && w.end
                    == mid[ii].end);
                assert forall|j: int, k: int|
                    0 <= j < ii + 1 && self.wormholes@[j].start <= k < self.wormholes@[j].end
                        implies self.leds.grid()[self.wormholes@[j].spine as int][k]
                    == #[trigger] worm_pixel(self.wormholes@[j], k) by {
                    if j < ii {
                        assert(self.wormholes@[j] == worms_pre[j]);
                        assert(!overlaps_spec(mid[j], mid[ii]));
                        assert(worms_pre[j].spine == mid[j].spine && worms_pre[j].start
                            == mid[j].start && worms_pre[j].end == mid[j].end);
                        if worms_pre[j].spine == w.spine {
                            assert(k < w.start || k >= w.end);
                        }
                        assert(self.leds.grid()[worms_pre[j].spine as int][k]
                            == grid_pre[worms_pre[j].spine as int][k]);
                    }
                }
                assert forall|s: int, k: int|
                    0 <= s < SPINES && 0 <= k < LEDS_PER_SPINE && (forall|j: int|
                        0 <= j < ii + 1 ==> !worm_covers(#[trigger] self.wormholes@[j], s, k))
                        implies self.leds.grid()[s][k] == black() by {
                    assert(!worm_covers(self.wormholes@[ii], s, k));
                    assert(!worm_covers(w, s, k));
                    assert forall|j: int| 0 <= j < ii implies !worm_covers(
                        #[trigger] worms_pre[j],
                        s,
                        k,
                    ) by {
                        assert(worms_pre[j] == self.wormholes@[j]);
                    }
                    assert(self.leds.grid()[s][k] == grid_pre[s][k]);
                }
            }
            i += 1;
        }
        let ghost rendered = self.wormholes@;
        proof {
            assert(rendered =~= stepped_worms(mid));
            assert forall|a: int, b: int| 0 <= a < b < count implies !overlaps_spec(
                rendered[a],
                rendered[b],
            ) by {
                assert(rendered[a] == step_worm(mid[a]) && rendered[b] == step_worm(mid[b]));
                assert(!overlaps_spec(mid[a], mid[b]));
            }
        }
        let mut kept: Vec<WormHole> = Vec::new();
        let mut i: usize = 0;
        while i < self.wormholes.len()
            invariant
                self.wormholes@ == rendered,
                rendered.len() == count,
                i <= count,
                kept@.len() <= i,
                forall|j: int| 0 <= j < count ==> worm_wf(#[trigger] rendered[j]),
                forall|a: int, b: int|
                    0 <= a < b < count ==> !overlaps_spec(rendered[a], rendered[b]),
                kept@ == prune_finished(rendered.take(i as int)),
                forall|m: int|
                    0 <= m < kept@.len() ==> exists|j: int|
                        0 <= j < i && #[trigger] kept@[m] == rendered[j],
                forall|m: int|
                    0 <= m < kept@.len() ==> worm_wf(#[trigger] kept@[m]) && !finished_spec(
                        kept@[m],
                    ),
                forall|a: int, b: int|
                    0 <= a < b < kept@.len() ==> !overlaps_spec(kept@[a], kept@[b]),
                forall|j: int|
                    0 <= j < i && !finished_spec(#[trigger] rendered[j]) ==> exists|m: int|
                        0 <= m < kept@.len() && kept@[m] == rendered[j],
            decreases count - i,
        {
            proof {
                assert(rendered.take(i + 1).drop_last() =~= rendered.take(i as int));
            }
            let w = self.wormholes[i];
            if !w.finished() {
                let ghost pre_kept = kept@;
                kept.push(w);
                proof {
                    assert(kept@[pre_kept.len() as int] == w);
                    assert(forall|m: int| 0 <= m < pre_kept.len() ==> kept@[m] == pre_kept[m]);
                    assert forall|a: int, b: int| 0 <= a < b < kept@.len() implies !overlaps_spec(
                        kept@[a],
                        kept@[b],
                    ) by {
                        if b == pre_kept.len() as int {
                            let j = choose|j: int|
                                0 <= j < i && #[trigger] kept@[a] == rendered[j];
                            assert(!overlaps_spec(rendered[j], rendered[i as int]));
                        }
                    }
                }
            }
            i += 1;
        }
        self.wormholes = kept;
        proof {
            assert(rendered.take(count as int) =~= rendered);
            assert(self.wormholes@ == prune_finished(stepped_worms(mid)));
            assert(spawn_extends(old(self).worms(), mid) && self.wormholes@ == prune_finished(
                stepped_worms(mid),
            ));
            assert forall|j: int, k: int|
                0 <= j < self.wormholes@.len() && self.wormholes@[j].start <= k
                    < self.wormholes@[j].end
                    implies self.leds.grid()[self.wormholes@[j].spine as int][k]
                == #[trigger] worm_pixel(self.wormholes@[j], k) by {
                let q = choose|q: int|
                    0 <= q < count && #[trigger] self.wormholes@[j] == rendered[q];
            }
            assert forall|s: int, k: int|
                0 <= s < SPINES && 0 <= k < LEDS_PER_SPINE implies worms_pixel_ok(
                self.wormholes@,
                self.leds.grid()[s][k],
                s,
                k,
            ) by {
                let px = self.leds.grid()[s][k];
                if px != black() {
                    let j = choose|j: int|
                        0 <= j < count && worm_covers(#[trigger] rendered[j], s, k);
                    assert(px == worm_pixel(rendered[j], k));
                    if finished_spec(rendered[j]) {
                        lemma_finished_is_dark(rendered[j], k);
                    } else {
                        let m = choose|m: int|
                            0 <= m < self.wormholes@.len() && #[trigger] self.wormholes@[m]
                                == rendered[j];
                        assert((self.wormholes@[m]).spine == s && self.wormholes@[m].start <= k
                            < self.wormholes@[m].end && px == worm_pixel(self.wormholes@[m], k));
                    }
                }
            }
        }
        &self.leds
    }

    /// The pattern's registry name.
    pub fn get_name(&self) -> (r: &'static str)
        ensures
            r@ == "wormholes"@,
    {
        "wormholes"
    }
}

} // verus!

//! "Colour wipes": white bands move outward from the root of each spine,
//! starting at regular intervals, leaving behind a decaying trail of random
//! colour.

use vstd::prelude::*;

use crate::common_structs::GpsFix;
use crate::common_structs::ImuReadings;
use crate::frame::LedUpdate;
use crate::hsv::hsv_spec;
use crate::hsv::random_half_saturated_colour;
use crate::math::div_trunc;
use crate::LEDS_PER_SPINE;
use crate::SPINES;

verus! {

/// How fast the wipes move, in milli-pixels per frame.
pub const WIPE_SPEED: i64 = 500;

/// How long the white band is, in pixels.
pub const BAND_LEN: i64 = 5;

/// How much non-white pixels decay by each frame.
pub const DECAY: u8 = 2;

/// A new wipe starts every this many frames.
pub const SPAWN_PERIOD: u64 = 20;

/// Positions beyond this are far off the end of a spine and stop advancing
/// (the wipe has no further visible effect).
pub const POSITION_CAP: i64 = 100_000;

/// A single colour wipe: a white band moving along a spine, trailing its
/// colour.
#[derive(Clone, Copy, Debug)]
pub struct Wipe {
    /// Which spine this wipe lives on.
    pub spine: usize,
    /// Position of the band's head in milli-pixels; starts below zero.
    pub position: i64,
    /// The colour the wipe leaves behind.
    pub colour: [u8; 3],
}

/// The wipe's fields are in range.
pub open spec fn wipe_wf(w: Wipe) -> bool {
    &&& w.spine < SPINES
    &&& -(BAND_LEN as int) * 1000 <= w.position <= POSITION_CAP + WIPE_SPEED
}

/// One byte of decay: subtract `DECAY` stopping at zero.
pub open spec fn dec_byte(v: u8) -> u8 {
    if v >= DECAY {
        (v - DECAY) as u8
    } else {
        0u8
    }
}

/// Per-frame decay of one pixel: white (the band head colour) is spared,
/// everything else fades by `DECAY` per component.
pub open spec fn decay_px(p: [u8; 3]) -> [u8; 3] {
    if p == [255u8, 255u8, 255u8] {
        p
    } else {
        [dec_byte(p[0]), dec_byte(p[1]), dec_byte(p[2])]
    }
}

/// One row decayed by one frame.
pub open spec fn decay_row(row: Seq<[u8; 3]>) -> Seq<[u8; 3]> {
    row.map_values(|p: [u8; 3]| decay_px(p))
}

/// The whole frame decayed by one frame.
pub open spec fn decay_grid(g: Seq<Seq<[u8; 3]>>) -> Seq<Seq<[u8; 3]>> {
    g.map_values(|row: Seq<[u8; 3]>| decay_row(row))
}

/// A wipe's position after one frame of movement.
pub open spec fn moved_pos(w: Wipe) -> int {
    if w.position < POSITION_CAP {
        w.position + WIPE_SPEED
    } else {
        w.position as int
    }
}

/// The pixel index a position falls in, saturating below zero (matching a
/// float-to-unsigned cast).
pub open spec fn px_floor_sat(p: int) -> int {
    if p < 0 {
        0
    } else {
        p / 1000
    }
}

/// Whether this frame's movement carries the band head into a new pixel.
pub open spec fn wipe_crossed(w: Wipe) -> bool {
    px_floor_sat(moved_pos(w)) != px_floor_sat(w.position as int)
}

/// Drawing one wipe onto the grid: when the head crossed into a new pixel,
/// the head pixel is painted white and the pixel `BAND_LEN` behind it is
/// painted the wipe's colour (each only when on the spine).
pub open spec fn apply_wipe(g: Seq<Seq<[u8; 3]>>, w: Wipe) -> Seq<Seq<[u8; 3]>> {
    if wipe_crossed(w) {
        let head = div_trunc(moved_pos(w), 1000);
        let tail = head - BAND_LEN;
        let s = w.spine as int;
        let g1 = if 0 <= head < LEDS_PER_SPINE {
            g.update(s, g[s].update(head, [255u8, 255u8, 255u8]))
        } else {
            g
        };
        let g2 = if 0 <= tail < LEDS_PER_SPINE {
            g1.update(s, g1[s].update(tail, w.colour))
        } else {
            g1
        };
        g2
    } else {
        g
    }
}

/// Drawing the wipes from index `i` on, in order.
pub open spec fn apply_wipes(g: Seq<Seq<[u8; 3]>>, ws: Seq<Wipe>, i: int) -> Seq<Seq<[u8; 3]>>
    decreases ws.len() - i,
{
    if i < 0 || i >= ws.len() {
        g
    } else {
        apply_wipes(apply_wipe(g, ws[i]), ws, i + 1)
    }
}

/// Apply one frame of decay to a whole frame: every non-white pixel fades
/// by `DECAY` per component, stopping at zero.
pub fn decay_frame(leds: &mut LedUpdate)
    requires
        old(leds).wf(),
    ensures
        final(leds).wf(),
        final(leds).grid() == decay_grid(old(leds).grid()),
{
    let mut s: usize = 0;
    while s < SPINES
        invariant
            leds.wf(),
            old(leds).wf(),
            s <= SPINES,
            forall|q: int|
                0 <= q < s ==> #[trigger] leds.grid()[q] == decay_row(old(leds).grid()[q]),
            forall|q: int|
                s <= q < SPINES ==> #[trigger] leds.grid()[q] == old(leds).grid()[q],
        decreases SPINES - s,
    {
        let mut k: usize = 0;
        while k < LEDS_PER_SPINE
            invariant
                leds.wf(),
                old(leds).wf(),
                s < SPINES,
                k <= LEDS_PER_SPINE,
                forall|q: int|
                    0 <= q < s ==> #[trigger] leds.grid()[q] == decay_row(old(leds).grid()[q]),
                forall|q: int|
                    s < q < SPINES ==> #[trigger] leds.grid()[q] == old(leds).grid()[q],
                forall|j: int|
                    0 <= j < k ==> #[trigger] leds.grid()[s as int][j] == decay_row(
                        old(leds).grid()[s as int],
                    )[j],
                forall|j: int|
                    k <= j < LEDS_PER_SPINE ==> #[trigger] leds.grid()[s as int][j] == old(
                        leds,
                    ).grid()[s as int][j],
            decreases LEDS_PER_SPINE - k,
    {
            let p = leds.get(s, k);
            if !(p[0] == 255 && p[1] == 255 && p[2] == 255) {
                let d = [
                    if p[0] >= DECAY {
                        p[0] - DECAY
                    } else {
                        0
                    },
                    if p[1] >= DECAY {
                        p[1] - DECAY
                    } else {
                        0
                    },
                    if p[2] >= DECAY {
                        p[2] - DECAY
                    } else {
                        0
                    },
                ];
                proof {
                    assert(p =~= [255u8, 255u8, 255u8] || d == decay_px(p));
                }
                leds.set(s, k, d);
            } else {
                proof {
                    assert(p =~= [255u8, 255u8, 255u8]);
                }
            }
            proof {
                assert(decay_row(old(leds).grid()[s as int])[k as int] == decay_px(
                    old(leds).grid()[s as int][k as int],
                ));
                assert(leds.grid()[s as int][k as int] == decay_row(
                    old(leds).grid()[s as int],
                )[k as int]);
            }
            k += 1;
        }
        proof {
            assert(leds.grid()[s as int] =~= decay_row(old(leds).grid()[s as int]));
        }
        s += 1;
    }
}

/// White bands wiping outward, leaving decaying colour trails.
pub struct ColourWipes {
    leds: LedUpdate,
    /// Wipes in progress, rendered in order.
    wipes: Vec<Wipe>,
    /// Frame counter for timing new wipes, modulo the spawn schedule
    /// period.
    frame_counter: u64,
}

impl ColourWipes {
    /// The frame, wipes and counter are in shape.
    pub closed spec fn wf(&self) -> bool {
        &&& self.leds.wf()
        &&& forall|j: int| 0 <= j < self.wipes@.len() ==> wipe_wf(#[trigger] self.wipes@[j])
        &&& self.frame_counter < 240
    }

    /// The internally owned frame.
    pub closed spec fn frame(&self) -> Seq<Seq<[u8; 3]>> {
        self.leds.grid()
    }

    /// The wipes in progress.
    pub closed spec fn wipes_seq(&self) -> Seq<Wipe> {
        self.wipes@
    }

    /// The frame counter.
    pub closed spec fn counter(&self) -> int {
        self.frame_counter as int
    }

    pub fn new() -> (r: ColourWipes)
        ensures
            r.wf(),
            r.counter() == 0,
            r.wipes_seq().len() == 0,
            crate::frame::all_black(r.frame()),
    {
        ColourWipes { leds: LedUpdate::new_black(), wipes: Vec::new(), frame_counter: 0 }
    }

    /// A borrow of the internally owned frame.
    pub fn frame_ref(&self) -> (r: &LedUpdate)
        requires
            self.wf(),
        ensures
            r.grid() == self.frame(),
            r.wf(),
    {
        &self.leds
    }

    /// One frame: decay every non-white pixel, move each wipe and draw the
    /// pixels its head crossed into, and on the spawn schedule start a new
    /// wipe on the next spine in rotation.
    pub fn step(&mut self, _gps: &Option<GpsFix>, _imu: &ImuReadings) -> (r: &LedUpdate)
        requires
            old(self).wf(),
        ensures
            final(self).wf(),
            final(self).frame() == apply_wipes(
                decay_grid(old(self).frame()),
                old(self).wipes_seq(),
                0,
            ),
            final(self).counter() == (old(self).counter() + 1) % 240,
            forall|j: int|
                0 <= j < old(self).wipes_seq().len() ==> {
                    &&& (#[trigger] final(self).wipes_seq()[j]).spine == old(self).wipes_seq()[j].spine
                    &&& final(self).wipes_seq()[j].colour == old(self).wipes_seq()[j].colour
                    &&& final(self).wipes_seq()[j].position == moved_pos(old(self).wipes_seq()[j])
                },
            old(self).counter() % (SPAWN_PERIOD as int) == 0 ==> {
                &&& final(self).wipes_seq().len() == old(self).wipes_seq().len() + 1
                &&& final(self).wipes_seq().last().spine == (old(self).counter() / (
                SPAWN_PERIOD as int)) % (SPINES as int)
                &&& final(self).wipes_seq().last().position == -(BAND_LEN as int) * 1000
                &&& exists|h: int, sat: int|
                    0 <= h < 360000 && 500 <= sat <= 1000 && final(self).wipes_seq().last().colour
                        == hsv_spec(h, sat, 1000)
            },
            old(self).counter() % (SPAWN_PERIOD as int) != 0 ==> final(self).wipes_seq().len()
                == old(self).wipes_seq().len(),
            r.grid() == final(self).frame(),
            r.wf(),
    {
        let ghost g0 = decay_grid(old(self).frame());
        let ghost orig_wipes = self.wipes@;
        decay_frame(&mut self.leds);
        // Move each wipe and draw the pixels its head crossed into.
        let ghost count = self.wipes@.len();
        let mut i: usize = 0;
        while i < self.wipes.len()
            invariant
                g0 == decay_grid(old(self).frame()),
                orig_wipes == old(self).wipes_seq(),
                self.leds.wf(),
                self.frame_counter == old(self).frame_counter,
                old(self).wf(),
                self.wipes@.len() == count,
                orig_wipes.len() == count,
                i <= count,
                forall|j: int| 0 <= j < count ==> wipe_wf(#[trigger] orig_wipes[j]),
                forall|j: int|
                    (i as int) <= j < count ==> #[trigger] self.wipes@[j] == orig_wipes[j],
                forall|j: int|
                    0 <= j < i ==> {
                        &&& (#[trigger] self.wipes@[j]).spine == orig_wipes[j].spine
                        &&& self.wipes@[j].colour == orig_wipes[j].colour
                        &&& self.wipes@[j].position == moved_pos(orig_wipes[j])
                        &&& wipe_wf(self.wipes@[j])
                    },
                apply_wipes(g0, orig_wipes, 0) == apply_wipes(
                    self.leds.grid(),
                    orig_wipes,
                    i as int,
                ),
            decreases count - i,
        {
            let ghost grid_pre = self.leds.grid();
            let mut w = self.wipes[i];
            let ghost w0 = w;
            let old_pos = w.position;
            if w.position < POSITION_CAP {
                w.position = w.position + WIPE_SPEED;
            }
            self.wipes[i] = w;
            proof {
                assert(w.position as int == moved_pos(w0));
            }
            let old_px = if old_pos < 0 {
                0
            } else {
                old_pos / 1000
            };
            let new_px = if w.position < 0 {
                0
            } else {
                w.position / 1000
            };
            proof {
                assert(old_px as int == px_floor_sat(w0.position as int));
                assert(new_px as int == px_floor_sat(moved_pos(w0)));
            }
            if new_px != old_px {
                let head = w.position / 1000;
                proof {
                    assert(head as int == div_trunc(moved_pos(w0), 1000));
                }
                if head >= 0 && head < LEDS_PER_SPINE as i64 {
                    self.leds.set(w.spine, head as usize, [255u8, 255u8, 255u8]);
                }
                let tail = head - BAND_LEN;
                if tail >= 0 && tail < LEDS_PER_SPINE as i64 {
                    self.leds.set(w.spine, tail as usize, w.colour);
                }
            }
            proof {
                assert(self.leds.grid() == apply_wipe(grid_pre, w0));
                assert(apply_wipes(grid_pre, orig_wipes, i as int) == apply_wipes(
                    self.leds.grid(),
                    orig_wipes,
                    i as int + 1,
                ));
            }
            i += 1;
        }
        proof {
            assert(apply_wipes(self.leds.grid(), orig_wipes, count as int) == self.leds.grid());
        }
        // Start a new wipe on the spawn schedule.
        if self.frame_counter % SPAWN_PERIOD == 0 {
            let spine = ((self.frame_counter / SPAWN_PERIOD) % (SPINES as u64)) as usize;
            let colour = random_half_saturated_colour();
            self.wipes.push(Wipe { spine, position: -(BAND_LEN * 1000), colour });
        }
        self.frame_counter = (self.frame_counter + 1) % 240;
        &self.leds
    }

    /// The pattern's registry name.
    pub fn get_name(&self) -> (r: &'static str)
        ensures
            r@ == "colour_wipes"@,
    {
        "colour_wipes"
    }
}

} // verus!

//! "Glitch": random segments of the spines flicker on and off in random
//! bright colours, in alternating glitching and quiet periods.

use vstd::prelude::*;

use crate::common_structs::GpsFix;
use crate::common_structs::ImuReadings;
use crate::frame::black;
use crate::frame::LedUpdate;
use crate::rng::random_in_range;
use crate::LEDS_PER_SPINE;
use crate::SPINES;

verus! {

/// Most segments a glitching period may start with.
pub const MAX_NUM_SEGMENTS: usize = 30;

/// Shortest segment length.
pub const GLITCH_SEG_LEN_MIN: i64 = 15;

/// Longest segment length (exclusive).
pub const GLITCH_SEG_LEN_MAX: i64 = 40;

/// A contiguous run of LEDs on one spine that flickers on and off.
#[derive(Clone, Copy, Debug)]
pub struct Segment {
    /// The spine the segment lies on.
    pub spine: usize,
    /// First pixel of the segment.
    pub start: usize,
    /// One past the last pixel of the segment.
    pub end: usize,
    /// The segment's current colour.
    pub colour: [u8; 3],
    /// Whether the segment is currently lit.
    pub on: bool,
}

/// The segment lies on the frame.
pub open spec fn seg_wf(g: Segment) -> bool {
    &&& g.spine < SPINES
    &&& g.start <= g.end <= LEDS_PER_SPINE
}

/// A segment's range covers pixel `(s, k)`.
pub open spec fn seg_covers(g: Segment, s: int, k: int) -> bool {
    g.spine == s && g.start <= k < g.end
}

/// Some segment of the list covers pixel `(s, k)`.
pub open spec fn covered(segs: Seq<Segment>, s: int, k: int) -> bool {
    exists|j: int| 0 <= j < segs.len() && seg_covers(#[trigger] segs[j], s, k)
}

/// A pixel value the glitch step may leave at `(s, k)`: unchanged, cleared,
/// or the colour of a segment covering it.
pub open spec fn glitch_pixel_ok(
    segs: Seq<Segment>,
    old_px: [u8; 3],
    px: [u8; 3],
    s: int,
    k: int,
) -> bool {
    ||| px == old_px
    ||| px == black()
    ||| exists|j: int|
        0 <= j < segs.len() && (#[trigger] segs[j]).spine == s && segs[j].start <= k < segs[j].end
            && px == segs[j].colour
}

/// Randomly illuminated segments in random bright colours.
pub struct Glitch {
    leds: LedUpdate,
    /// Whether a glitching period is in progress.
    glitching: bool,
    /// The segments of the current glitching period.
    segments: Vec<Segment>,
}

impl Glitch {
    /// The frame is in shape, all segments lie on it, and quiet periods
    /// hold no segments.
    pub closed spec fn wf(&self) -> bool {
        &&& self.leds.wf()
        &&& forall|j: int| 0 <= j < self.segments@.len() ==> seg_wf(#[trigger] self.segments@[j])
        &&& (!self.glitching ==> self.segments@.len() == 0)
    }

    /// The internally owned frame.
    pub closed spec fn frame(&self) -> Seq<Seq<[u8; 3]>> {
        self.leds.grid()
    }

    /// Whether a glitching period is in progress.
    pub closed spec fn is_glitching(&self) -> bool {
        self.glitching
    }

    /// The current segments.
    pub closed spec fn segs(&self) -> Seq<Segment> {
        self.segments@
    }

    pub fn new() -> (r: Glitch)
        ensures
            r.wf(),
            !r.is_glitching(),
            crate::frame::all_black(r.frame()),
    {
        Glitch { leds: LedUpdate::new_black(), glitching: false, segments: Vec::new() }
    }

    /// A borrow of the internally owned frame.
    pub fn frame_ref(&self) -> (r: &LedUpdate)
        requires
            self.wf(),
        ensures
            r.grid() == self.frame(),
            r.wf(),
    {
        &self.leds
    }

    /// One frame.  In a quiet period the frame is cleared and, with small
    /// probability, a glitching period begins with freshly drawn segments.
    /// In a glitching period each segment may flicker on (possibly
    /// recoloured) or off, and with small probability the period ends.
    pub fn step(&mut self, _gps: &Option<GpsFix>, _imu: &ImuReadings) -> (r: &LedUpdate)
        requires
            old(self).wf(),
        ensures
            final(self).wf(),
            !old(self).is_glitching() ==> crate::frame::all_black(final(self).frame()),
            old(self).is_glitching() ==> forall|s: int, k: int|
                0 <= s < SPINES && 0 <= k < LEDS_PER_SPINE ==> glitch_pixel_ok(
                    final(self).segs(),
                    old(self).frame()[s][k],
                    #[trigger] final(self).frame()[s][k],
                    s,
                    k,
                ),
            old(self).is_glitching() && final(self).is_glitching() ==> {
                &&& final(self).segs().len() == old(self).segs().len()
                &&& forall|j: int|
                    0 <= j < old(self).segs().len() ==> (#[trigger] final(self).segs()[j]).spine
                        == old(self).segs()[j].spine && final(self).segs()[j].start == old(
                        self,
                    ).segs()[j].start && final(self).segs()[j].end == old(self).segs()[j].end
                &&& forall|s: int, k: int|
                    0 <= s < SPINES && 0 <= k < LEDS_PER_SPINE && !covered(
                        final(self).segs(),
                        s,
                        k,
                    ) ==> #[trigger] final(self).frame()[s][k] == old(self).frame()[s][k]
            },
            r.grid() == final(self).frame(),
            r.wf(),
    {
        if self.glitching {
            if random_in_range(0, 35) == 0 {
                self.glitching = false;
                self.segments.clear();
            }
            let ghost count = self.segments@.len();
            let ghost still = self.glitching;
            let mut i: usize = 0;
            while i < self.segments.len()
                invariant
                    self.leds.wf(),
                    self.glitching == still,
                    !still ==> count == 0,
                    still ==> count == old(self).segs().len(),
                    still ==> forall|j: int|
                        0 <= j < count ==> (#[trigger] self.segments@[j]).spine == old(
                            self,
                        ).segs()[j].spine && self.segments@[j].start == old(self).segs()[j].start
                            && self.segments@[j].end == old(self).segs()[j].end,
                    self.segments@.len() == count,
                    i <= count,
                    forall|j: int| 0 <= j < count ==> seg_wf(#[trigger] self.segments@[j]),
                    forall|s: int, k: int|
                        0 <= s < SPINES && 0 <= k < LEDS_PER_SPINE ==> glitch_pixel_ok(
                            self.segments@.take(i as int),
                            old(self).frame()[s][k],
                            #[trigger] self.leds.grid()[s][k],
                            s,
                            k,
                        ),
                    forall|s: int, k: int|
                        0 <= s < SPINES && 0 <= k < LEDS_PER_SPINE && !covered(
                            self.segments@,
                            s,
                            k,
                        ) ==> #[trigger] self.leds.grid()[s][k] == old(self).frame()[s][k],
                decreases count - i,
            {
                let ghost pre_segs = self.segments@;
                let ghost pre_grid = self.leds.grid();
                let mut seg = self.segments[i];
                if !seg.on && random_in_range(0, 9) == 0 {
                    seg.on = true;
                    if random_in_range(0, 99) < 3 {
                        seg.colour = [
                            random_in_range(0, 255) as u8,
                            random_in_range(0, 255) as u8,
                            random_in_range(0, 255) as u8,
                        ];
                    }
                    self.segments[i] = seg;
                    self.leds.paint_range(seg.spine, seg.start, seg.end, seg.colour);
                } else if seg.on && random_in_range(0, 9) == 0 {
                    seg.on = false;
                    self.segments[i] = seg;
                    self.leds.paint_range(seg.spine, seg.start, seg.end, [0u8, 0u8, 0u8]);
                }
                proof {
                    let ii = i as int;
                    let segs_new = self.segments@;
                    assert(segs_new.take(ii) =~= pre_segs.take(ii));
                    assert forall|s: int, k: int|
                        0 <= s < SPINES && 0 <= k < LEDS_PER_SPINE && !covered(
                        segs_new,
                        s,
                        k,
                    ) implies self.leds.grid()[s][k] == old(self).frame()[s][k] by {
                        assert(!covered(pre_segs, s, k)) by {
                            if covered(pre_segs, s, k) {
                                let j = choose|j: int|
                                    0 <= j < pre_segs.len() && seg_covers(
                                        #[trigger] pre_segs[j],
                                        s,
                                        k,
                                    );
                                if j == ii {
                                    assert(seg_covers(segs_new[j], s, k));
                                } else {
                                    assert(segs_new[j] == pre_segs[j]);
                                    assert(seg_covers(segs_new[j], s, k));
                                }
                            }
                        }
                        assert(!seg_covers(segs_new[ii], s, k));
                        assert(self.leds.grid()[s][k] == pre_grid[s][k]);
                    }
                    assert forall|s: int, k: int|
                        0 <= s < SPINES && 0 <= k < LEDS_PER_SPINE implies glitch_pixel_ok(
                        segs_new.take(ii + 1),
                        old(self).frame()[s][k],
                        self.leds.grid()[s][k],
                        s,
                        k,
                    ) by {
                        let px = self.leds.grid()[s][k];
                        let old_px = old(self).frame()[s][k];
                        if px == old_px || px == black() {
                        } else if px == pre_grid[s][k] {
                            let pre_take = pre_segs.take(ii);
                            let j = choose|j: int|
                                0 <= j < pre_take.len() && (#[trigger] pre_take[j]).spine == s
                                    && pre_take[j].start <= k < pre_take[j].end && px
                                    == pre_take[j].colour;
                            assert(segs_new.take(ii + 1)[j] == pre_take[j]);
                            assert((segs_new.take(ii + 1)[j]).spine == s && segs_new.take(
                                ii + 1,
                            )[j].start <= k < segs_new.take(ii + 1)[j].end && px == segs_new.take(
                                ii + 1,
                            )[j].colour);
                        } else {
                            let w = segs_new.take(ii + 1)[ii];
                            assert(w == segs_new[ii]);
                            assert(w.spine == s && w.start <= k < w.end && px == w.colour);
                        }
                    }
                }
                i += 1;
            }
            proof {
                assert(self.segments@.take(self.segments@.len() as int) =~= self.segments@);
            }
        } else {
            if random_in_range(0, 47) == 0 {
                self.glitching = true;
                let count = random_in_range(0, 29);
                let mut n: i64 = 0;
                while n < count
                    invariant
                        self.leds.wf(),
                        self.glitching,
                        n <= count <= 29,
                        forall|j: int|
                            0 <= j < self.segments@.len() ==> seg_wf(#[trigger] self.segments@[j]),
                    decreases count - n,
                {
                    let len = random_in_range(GLITCH_SEG_LEN_MIN, GLITCH_SEG_LEN_MAX - 1);
                    let start = random_in_range(0, 58 - len);
                    self.segments.push(
                        Segment {
                            spine: random_in_range(0, 11) as usize,
                            start: start as usize,
                            end: (start + len) as usize,
                            colour: [
                                random_in_range(0, 255) as u8,
                                random_in_range(0, 255) as u8,
                                random_in_range(0, 255) as u8,
                            ],
                            on: false,
                        },
                    );
                    n += 1;
                }
            }
            self.leds.fill([0u8, 0u8, 0u8]);
        }
        &self.leds
    }

    /// The pattern's registry name.
    pub fn get_name(&self) -> (r: &'static str)
        ensures
            r@ == "glitch"@,
    {
        "glitch"
    }
}

} // verus!

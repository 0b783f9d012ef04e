//! Identify which spine is which: spine `4a + b` shows groups of `b + 1`
//! pixels in the `a`-th primary colour, separated by two black pixels.

use vstd::prelude::*;

use crate::common_structs::GpsFix;
use crate::common_structs::ImuReadings;
use crate::frame::black;
use crate::frame::LedUpdate;
use crate::LEDS_PER_SPINE;
use crate::SPINES;

verus! {

/// The group colour of spine `s`: red, green or blue by spine quartet.
pub open spec fn id_colour(s: int) -> [u8; 3] {
    if s / 4 == 0 {
        [255u8, 0u8, 0u8]
    } else if s / 4 == 1 {
        [0u8, 255u8, 0u8]
    } else {
        [0u8, 0u8, 255u8]
    }
}

/// The pixel shown at offset `k` of spine `s`: groups of `s % 4 + 1` lit
/// pixels with two-pixel gaps.
pub open spec fn id_pixel(s: int, k: int) -> [u8; 3] {
    let group = s % 4 + 3;
    if k % group == 0 || k % group == 1 {
        black()
    } else {
        id_colour(s)
    }
}

/// A static identification pattern, one distinct marking per spine.
pub struct IdSpines {
    leds: LedUpdate,
}

impl IdSpines {
    /// The frame is in shape.
    pub closed spec fn wf(&self) -> bool {
        self.leds.wf()
    }

    /// The internally owned frame.
    pub closed spec fn frame(&self) -> Seq<Seq<[u8; 3]>> {
        self.leds.grid()
    }

    pub fn new() -> (r: IdSpines)
        ensures
            r.wf(),
    {
        IdSpines { leds: LedUpdate::new_black() }
    }

    /// A borrow of the internally owned frame.
    pub fn frame_ref(&self) -> (r: &LedUpdate)
        requires
            self.wf(),
        ensures
            r.grid() == self.frame(),
            r.wf(),
    {
        &self.leds
    }

    /// Render the identification markings (the same frame every call).
    pub fn step(&mut self, _gps: &Option<GpsFix>, _imu: &ImuReadings) -> (r: &LedUpdate)
        requires
            old(self).wf(),
        ensures
            final(self).wf(),
            forall|s: int, k: int|
                0 <= s < SPINES && 0 <= k < LEDS_PER_SPINE ==> #[trigger] final(self).frame()[s][k]
                    == id_pixel(s, k),
            r.grid() == final(self).frame(),
            r.wf(),
    {
        let mut s: usize = 0;
        while s < SPINES
            invariant
                self.leds.wf(),
                s <= SPINES,
                forall|q: int, k: int|
                    0 <= q < s && 0 <= k < LEDS_PER_SPINE ==> #[trigger] self.leds.grid()[q][k]
                        == id_pixel(q, k),
            decreases SPINES - s,
        {
            let group = s % 4 + 3;
            let colour = if s / 4 == 0 {
                [255u8, 0u8, 0u8]
            } else if s / 4 == 1 {
                [0u8, 255u8, 0u8]
            } else {
                [0u8, 0u8, 255u8]
            };
            let mut k: usize = 0;
            while k < LEDS_PER_SPINE
                invariant
                    self.leds.wf(),
                    s < SPINES,
                    k <= LEDS_PER_SPINE,
                    group == s % 4 + 3,
                    colour == id_colour(s as int),
                    forall|q: int, j: int|
                        0 <= q < s && 0 <= j < LEDS_PER_SPINE ==> #[trigger] self.leds.grid()[q][j]
                            == id_pixel(q, j),
                    forall|j: int|
                        0 <= j < k ==> #[trigger] self.leds.grid()[s as int][j] == id_pixel(
                            s as int,
                            j,
                        ),
                decreases LEDS_PER_SPINE - k,
            {
                let px = if k % group == 0 || k % group == 1 {
                    [0u8, 0u8, 0u8]
                } else {
                    colour
                };
                self.leds.set(s, k, px);
                k += 1;
            }
            s += 1;
        }
        &self.leds
    }

    /// The pattern's registry name.
    pub fn get_name(&self) -> (r: &'static str)
        ensures
            r@ == "id_spines"@,
    {
        "id_spines"
    }
}

} // verus!

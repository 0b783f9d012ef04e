//! Hardware test pattern: red, green and blue points scrolling outward.

use vstd::prelude::*;

use crate::common_structs::GpsFix;
use crate::common_structs::ImuReadings;
use crate::frame::black;
use crate::frame::LedUpdate;
use crate::LEDS_PER_SPINE;
use crate::SPINES;

verus! {

/// The pixel the strip test shows at offset `k` in phase `i`.
pub open spec fn strip_test_pixel(i: int, k: int) -> [u8; 3] {
    let m = (k + i) % 10;
    if m == 0 {
        [255u8, 0u8, 0u8]
    } else if m == 2 {
        [0u8, 255u8, 0u8]
    } else if m == 4 {
        [0u8, 0u8, 255u8]
    } else {
        black()
    }
}

/// Separated red, green and blue points, scrolled inward by one per frame.
pub struct StripTest {
    leds: LedUpdate,
    /// Scroll phase, counted down from 60.
    i: usize,
}

impl StripTest {
    /// The frame and phase are in shape.
    pub closed spec fn wf(&self) -> bool {
        &&& self.leds.wf()
        &&& self.i <= 60
    }

    /// The current phase.
    pub closed spec fn phase(&self) -> int {
        self.i as int
    }

    /// The internally owned frame.
    pub closed spec fn frame(&self) -> Seq<Seq<[u8; 3]>> {
        self.leds.grid()
    }

    pub fn new() -> (r: StripTest)
        ensures
            r.wf(),
            r.phase() == 0,
    {
        StripTest { leds: LedUpdate::new_black(), i: 0 }
    }

    /// A borrow of the internally owned frame.
    pub fn frame_ref(&self) -> (r: &LedUpdate)
        requires
            self.wf(),
        ensures
            r.grid() == self.frame(),
            r.wf(),
    {
        &self.leds
    }

    /// Render one frame of the colour points, then step the phase down
    /// (wrapping to 60).
    pub fn step(&mut self, _gps: &Option<GpsFix>, _imu: &ImuReadings) -> (r: &LedUpdate)
        requires
            old(self).wf(),
        ensures
            final(self).wf(),
            final(self).phase() == if old(self).phase() == 0 {
                60int
            } else {
                old(self).phase() - 1
            },
            forall|s: int, k: int|
                0 <= s < SPINES && 0 <= k < LEDS_PER_SPINE ==> #[trigger] final(self).frame()[s][k]
                    == strip_test_pixel(old(self).phase(), k),
            r.grid() == final(self).frame(),
            r.wf(),
    {
        let mut s: usize = 0;
        while s < SPINES
            invariant
                self.leds.wf(),
                self.i == old(self).i,
                old(self).wf(),
                s <= SPINES,
                forall|q: int, k: int|
                    0 <= q < s && 0 <= k < LEDS_PER_SPINE ==> #[trigger] self.leds.grid()[q][k]
                        == strip_test_pixel(old(self).phase(), k),
            decreases SPINES - s,
        {
            let mut k: usize = 0;
            while k < LEDS_PER_SPINE
                invariant
                    self.leds.wf(),
                    self.i == old(self).i,
                    old(self).wf(),
                    s < SPINES,
                    k <= LEDS_PER_SPINE,
                    forall|q: int, j: int|
                        0 <= q < s && 0 <= j < LEDS_PER_SPINE ==> #[trigger] self.leds.grid()[q][j]
                            == strip_test_pixel(old(self).phase(), j),
                    forall|j: int|
                        0 <= j < k ==> #[trigger] self.leds.grid()[s as int][j]
                            == strip_test_pixel(old(self).phase(), j),
                decreases LEDS_PER_SPINE - k,
            {
                let m = (k + self.i) % 10;
                let px = if m == 0 {
                    [255u8, 0u8, 0u8]
                } else if m == 2 {
                    [0u8, 255u8, 0u8]
                } else if m == 4 {
                    [0u8, 0u8, 255u8]
                } else {
                    [0u8, 0u8, 0u8]
                };
                self.leds.set(s, k, px);
                k += 1;
            }
            s += 1;
        }
        self.i = if self.i == 0 {
            60
        } else {
            self.i - 1
        };
        &self.leds
    }

    /// The pattern's registry name.
    pub fn get_name(&self) -> (r: &'static str)
        ensures
            r@ == "strip_test"@,
    {
        "strip_test"
    }
}

} // verus!

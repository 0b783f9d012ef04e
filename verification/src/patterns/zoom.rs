//! Points of light zoom from the centre to the outer edge of the spines.

use vstd::prelude::*;

use crate::common_structs::GpsFix;
use crate::common_structs::ImuReadings;
use crate::frame::black;
use crate::frame::LedUpdate;
use crate::LEDS_PER_SPINE;
use crate::SPINES;

verus! {

/// The pixel the zoom pattern shows at offset `k` in phase `i`: white on
/// every tenth slot, scrolled inward by one per frame.
pub open spec fn zoom_pixel(i: int, k: int) -> [u8; 3] {
    if (k + i) % 10 == 0 {
        [255u8, 255u8, 255u8]
    } else {
        black()
    }
}

/// White pixels every 10 slots, scrolled inward by one each frame.
pub struct Zoom {
    leds: LedUpdate,
    /// Scroll phase, counted down from 60.
    i: usize,
}

impl Zoom {
    /// The frame and phase are in shape.
    pub closed spec fn wf(&self) -> bool {
        &&& self.leds.wf()
        &&& self.i <= 60
    }

    /// The current phase.
    pub closed spec fn phase(&self) -> int {
        self.i as int
    }

    /// The internally owned frame.
    pub closed spec fn frame(&self) -> Seq<Seq<[u8; 3]>> {
        self.leds.grid()
    }

    pub fn new() -> (r: Zoom)
        ensures
            r.wf(),
            r.phase() == 0,
    {
        Zoom { leds: LedUpdate::new_black(), i: 0 }
    }

    /// A borrow of the internally owned frame.
    pub fn frame_ref(&self) -> (r: &LedUpdate)
        requires
            self.wf(),
        ensures
            r.grid() == self.frame(),
            r.wf(),
    {
        &self.leds
    }

    /// Render one frame: each pixel `k` is white exactly when `(k + phase)`
    /// is a multiple of 10, and the phase then steps down (wrapping to 60).
    pub fn step(&mut self, _gps: &Option<GpsFix>, _imu: &ImuReadings) -> (r: &LedUpdate)
        requires
            old(self).wf(),
        ensures
            final(self).wf(),
            final(self).phase() == if old(self).phase() == 0 {
                60int
            } else {
                old(self).phase() - 1
            },
            forall|s: int, k: int|
                0 <= s < SPINES && 0 <= k < LEDS_PER_SPINE ==> #[trigger] final(self).frame()[s][k]
                    == zoom_pixel(old(self).phase(), k),
            r.grid() == final(self).frame(),
            r.wf(),
    {
        let mut s: usize = 0;
        while s < SPINES
            invariant
                self.leds.wf(),
                self.i == old(self).i,
                old(self).wf(),
                s <= SPINES,
                forall|q: int, k: int|
                    0 <= q < s && 0 <= k < LEDS_PER_SPINE ==> #[trigger] self.leds.grid()[q][k]
                        == zoom_pixel(old(self).phase(), k),
            decreases SPINES - s,
        {
            let mut k: usize = 0;
            while k < LEDS_PER_SPINE
                invariant
                    self.leds.wf(),
                    self.i == old(self).i,
                    old(self).wf(),
                    s < SPINES,
                    k <= LEDS_PER_SPINE,
                    forall|q: int, j: int|
                        0 <= q < s && 0 <= j < LEDS_PER_SPINE ==> #[trigger] self.leds.grid()[q][j]
                            == zoom_pixel(old(self).phase(), j),
                    forall|j: int|
                        0 <= j < k ==> #[trigger] self.leds.grid()[s as int][j] == zoom_pixel(
                            old(self).phase(),
                            j,
                        ),
                decreases LEDS_PER_SPINE - k,
            {
                let px = if (k + self.i) % 10 == 0 {
                    [255u8, 255u8, 255u8]
                } else {
                    [0u8, 0u8, 0u8]
                };
                self.leds.set(s, k, px);
                k += 1;
            }
            s += 1;
        }
        self.i = if self.i == 0 {
            60
        } else {
            self.i - 1
        };
        &self.leds
    }

    /// The pattern's registry name.
    pub fn get_name(&self) -> (r: &'static str)
        ensures
            r@ == "zoom"@,
    {
        "zoom"
    }
}

} // verus!

//! Like the old starfield screensaver: stars appear at the root of each
//! spine and drift outward.

use vstd::prelude::*;

use crate::common_structs::GpsFix;
use crate::common_structs::ImuReadings;
use crate::frame::black;
use crate::frame::LedUpdate;
use crate::rng::random_in_range;
use crate::LEDS_PER_SPINE;
use crate::SPINES;

verus! {

/// A white star of intensity between `lo` and `hi`.
pub open spec fn is_white_star(px: [u8; 3], lo: int, hi: int) -> bool {
    &&& px[0] == px[1]
    &&& px[1] == px[2]
    &&& lo <= px[0] <= hi
}

/// White points of random intensity drifting outward on each spine.
pub struct Starfield {
    leds: LedUpdate,
}

impl Starfield {
    /// The frame is in shape.
    pub closed spec fn wf(&self) -> bool {
        self.leds.wf()
    }

    /// The internally owned frame.
    pub closed spec fn frame(&self) -> Seq<Seq<[u8; 3]>> {
        self.leds.grid()
    }

    pub fn new() -> (r: Starfield)
        ensures
            r.wf(),
            crate::frame::all_black(r.frame()),
    {
        Starfield { leds: LedUpdate::new_black() }
    }

    /// A borrow of the internally owned frame.
    pub fn frame_ref(&self) -> (r: &LedUpdate)
        requires
            self.wf(),
        ensures
            r.grid() == self.frame(),
            r.wf(),
    {
        &self.leds
    }

    /// Shift every spine one pixel outward; the vacated root pixel becomes,
    /// with small probability, a new white star of intensity 85 to 255, and
    /// is black otherwise.
    pub fn step(&mut self, _gps: &Option<GpsFix>, _imu: &ImuReadings) -> (r: &LedUpdate)
        requires
            old(self).wf(),
        ensures
            final(self).wf(),
            forall|s: int| #![trigger final(self).frame()[s]]
                0 <= s < SPINES ==> {
                    &&& (final(self).frame()[s][0] == black() || is_white_star(
                        final(self).frame()[s][0],
                        85,
                        255,
                    ))
                    &&& forall|k: int|
                        1 <= k < LEDS_PER_SPINE ==> #[trigger] final(self).frame()[s][k] == old(
                            self,
                        ).frame()[s][k - 1]
                },
            r.grid() == final(self).frame(),
            r.wf(),
    {
        let mut s: usize = 0;
        while s < SPINES
            invariant
                self.leds.wf(),
                s <= SPINES,
                forall|q: int| #![trigger self.leds.grid()[q]]
                    0 <= q < s ==> {
                        &&& (self.leds.grid()[q][0] == black() || is_white_star(
                            self.leds.grid()[q][0],
                            85,
                            255,
                        ))
                        &&& forall|k: int|
                            1 <= k < LEDS_PER_SPINE ==> #[trigger] self.leds.grid()[q][k] == old(
                                self,
                            ).frame()[q][k - 1]
                    },
                forall|q: int|
                    s <= q < SPINES ==> #[trigger] self.leds.grid()[q] == old(self).frame()[q],
            decreases SPINES - s,
        {
            self.leds.shift_out(s);
            let root: [u8; 3] = if random_in_range(0, 999) < 83 {
                let intensity = random_in_range(85, 255) as u8;
                [intensity, intensity, intensity]
            } else {
                [0u8, 0u8, 0u8]
            };
            self.leds.set(s, 0, root);
            s += 1;
        }
        &self.leds
    }

    /// The pattern's registry name.
    pub fn get_name(&self) -> (r: &'static str)
        ensures
            r@ == "starfield"@,
    {
        "starfield"
    }
}

} // verus!

//! Exercises the power-cut mechanism: one pixel blinks with a period of
//! four seconds, so the total power draw should visibly cycle as the output
//! stage cuts and restores power.

use vstd::prelude::*;

use crate::common_structs::GpsFix;
use crate::common_structs::ImuReadings;
use crate::frame::black;
use crate::frame::LedUpdate;

verus! {

/// Blinks the first pixel of the first spine on and off.
pub struct TestBlackout {
    leds: LedUpdate,
    /// Frame counter modulo 240.
    i: usize,
}

impl TestBlackout {
    /// The frame and counter are in shape.
    pub closed spec fn wf(&self) -> bool {
        &&& self.leds.wf()
        &&& self.i < 240
    }

    /// The current counter value.
    pub closed spec fn counter(&self) -> int {
        self.i as int
    }

    /// The internally owned frame.
    pub closed spec fn frame(&self) -> Seq<Seq<[u8; 3]>> {
        self.leds.grid()
    }

    pub fn new() -> (r: TestBlackout)
        ensures
            r.wf(),
            r.counter() == 0,
            crate::frame::all_black(r.frame()),
    {
        TestBlackout { leds: LedUpdate::new_black(), i: 0 }
    }

    /// A borrow of the internally owned frame.
    pub fn frame_ref(&self) -> (r: &LedUpdate)
        requires
            self.wf(),
        ensures
            r.grid() == self.frame(),
            r.wf(),
    {
        &self.leds
    }

    /// Advance the counter, then light the first pixel dim red for the
    /// first half of the cycle and black for the second.
    pub fn step(&mut self, _gps: &Option<GpsFix>, _imu: &ImuReadings) -> (r: &LedUpdate)
        requires
            old(self).wf(),
        ensures
            final(self).wf(),
            final(self).counter() == (old(self).counter() + 1) % 240,
            final(self).frame() == old(self).frame().update(
                0,
                old(self).frame()[0].update(
                    0,
                    if (old(self).counter() + 1) % 240 < 120 {
                        [1u8, 0u8, 0u8]
                    } else {
                        black()
                    },
                ),
            ),
            r.grid() == final(self).frame(),
            r.wf(),
    {
        self.i = (self.i + 1) % 240;
        let px = if self.i < 120 {
            [1u8, 0u8, 0u8]
        } else {
            [0u8, 0u8, 0u8]
        };
        self.leds.set(0, 0, px);
        &self.leds
    }

    /// The pattern's registry name.
    pub fn get_name(&self) -> (r: &'static str)
        ensures
            r@ == "test_blackout"@,
    {
        "test_blackout"
    }
}

} // verus!

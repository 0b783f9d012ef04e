//! A chill "sleep" pattern for extended inactivity: a squared-sine red
//! heartbeat streamed down each spine.

use vstd::prelude::*;

use crate::common_structs::GpsFix;
use crate::common_structs::ImuReadings;
use crate::frame::black;
use crate::frame::LedUpdate;
use crate::LEDS_PER_SPINE;
use crate::SPINES;

verus! {

/// Repetition period of the complete pattern, in frames.
pub const PATTERN_PERIOD: usize = 300;

/// Period of the squared sinusoid, in frames.
pub const SINUSOID_PERIOD: usize = 90;

/// One quarter-wave of the squared sinusoid: `round(sin(tau*t/90)^2 * 255)`
/// for `t` from 0 to 22.
pub open spec fn pulse_quarter(t: int) -> int {
    if t == 0 {
        0
    } else if t == 1 {
        1
    } else if t == 2 {
        5
    } else if t == 3 {
        11
    } else if t == 4 {
        19
    } else if t == 5 {
        30
    } else if t == 6 {
        42
    } else if t == 7 {
        56
    } else if t == 8 {
        72
    } else if t == 9 {
        88
    } else if t == 10 {
        105
    } else if t == 11 {
        123
    } else if t == 12 {
        141
    } else if t == 13 {
        158
    } else if t == 14 {
        175
    } else if t == 15 {
        191
    } else if t == 16 {
        206
    } else if t == 17 {
        219
    } else if t == 18 {
        231
    } else if t == 19 {
        240
    } else if t == 20 {
        247
    } else if t == 21 {
        252
    } else {
        255
    }
}

/// The heartbeat intensity at frame `t` of the sinusoidal portion:
/// `sin(tau*t/90)^2` scaled to a byte.  The squared sine has period 45 and
/// is symmetric about its peak, so the quarter-wave table covers it.
pub open spec fn heartbeat(t: int) -> int {
    let u = t % 45;
    if u <= 22 {
        pulse_quarter(u)
    } else {
        pulse_quarter(45 - u)
    }
}

/// The root colour at counter value `t`: the red heartbeat during the first
/// sinusoid period of the cycle, black for the rest.
pub open spec fn sleep_colour(t: int) -> [u8; 3] {
    if t < SINUSOID_PERIOD {
        [heartbeat(t) as u8, 0u8, 0u8]
    } else {
        black()
    }
}

/// Exec mirror of `pulse_quarter`.
fn pulse_quarter_val(t: usize) -> (r: u8)
    requires
        t <= 22,
    ensures
        r as int == pulse_quarter(t as int),
{
    match t {
        0 => 0,
        1 => 1,
        2 => 5,
        3 => 11,
        4 => 19,
        5 => 30,
        6 => 42,
        7 => 56,
        8 => 72,
        9 => 88,
        10 => 105,
        11 => 123,
        12 => 141,
        13 => 158,
        14 => 175,
        15 => 191,
        16 => 206,
        17 => 219,
        18 => 231,
        19 => 240,
        20 => 247,
        21 => 252,
        _ => 255,
    }
}

/// The sin-squared heartbeat streamed down each spine.
pub struct Sleep {
    leds: LedUpdate,
    /// Frame counter within the pattern cycle.
    i: usize,
}

impl Sleep {
    /// The frame and counter are in shape.
    pub closed spec fn wf(&self) -> bool {
        &&& self.leds.wf()
        &&& self.i < PATTERN_PERIOD
    }

    /// The current cycle counter.
    pub closed spec fn counter(&self) -> int {
        self.i as int
    }

    /// The internally owned frame.
    pub closed spec fn frame(&self) -> Seq<Seq<[u8; 3]>> {
        self.leds.grid()
    }

    pub fn new() -> (r: Sleep)
        ensures
            r.wf(),
            r.counter() == 0,
    {
        Sleep { leds: LedUpdate::new_black(), i: 0 }
    }

    /// A borrow of the internally owned frame.
    pub fn frame_ref(&self) -> (r: &LedUpdate)
        requires
            self.wf(),
        ensures
            r.grid() == self.frame(),
            r.wf(),
    {
        &self.leds
    }

    /// Stream each spine one pixel outward and feed the heartbeat colour in
    /// at the root.
    pub fn step(&mut self, _gps: &Option<GpsFix>, _imu: &ImuReadings) -> (r: &LedUpdate)
        requires
            old(self).wf(),
        ensures
            final(self).wf(),
            final(self).counter() == (old(self).counter() + 1) % (PATTERN_PERIOD as int),
            forall|s: int| #![trigger final(self).frame()[s]]
                0 <= s < SPINES ==> {
                    &&& final(self).frame()[s][0] == sleep_colour(old(self).counter())
                    &&& forall|k: int|
                        1 <= k < LEDS_PER_SPINE ==> #[trigger] final(self).frame()[s][k] == old(
                            self,
                        ).frame()[s][k - 1]
                },
            r.grid() == final(self).frame(),
            r.wf(),
    {
        let colour: [u8; 3] = if self.i < SINUSOID_PERIOD {
            let u = self.i % 45;
            let q = if u <= 22 {
                pulse_quarter_val(u)
            } else {
                pulse_quarter_val(45 - u)
            };
            [q, 0u8, 0u8]
        } else {
            [0u8, 0u8, 0u8]
        };
        let mut s: usize = 0;
        while s < SPINES
            invariant
                self.leds.wf(),
                self.i == old(self).i,
                old(self).wf(),
                s <= SPINES,
                colour == sleep_colour(old(self).counter()),
                forall|q: int| #![trigger self.leds.grid()[q]]
                    0 <= q < s ==> {
                        &&& self.leds.grid()[q][0] == sleep_colour(old(self).counter())
                        &&& forall|k: int|
                            1 <= k < LEDS_PER_SPINE ==> #[trigger] self.leds.grid()[q][k] == old(
                                self,
                            ).frame()[q][k - 1]
                    },
                forall|q: int|
                    s <= q < SPINES ==> #[trigger] self.leds.grid()[q] == old(self).frame()[q],
            decreases SPINES - s,
        {
            self.leds.shift_out(s);
            self.leds.set(s, 0, colour);
            s += 1;
        }
        self.i = (self.i + 1) % PATTERN_PERIOD;
        &self.leds
    }

    /// The pattern's registry name.
    pub fn get_name(&self) -> (r: &'static str)
        ensures
            r@ == "sleep"@,
    {
        "sleep"
    }

    /// This is the sleep pattern.
    pub fn is_sleep(&self) -> (r: bool)
        ensures
            r,
    {
        true
    }
}

} // verus!

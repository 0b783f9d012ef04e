//! The starfield with colours: a fifth of the stars are fully saturated
//! random hues, the rest dimmer white.

use vstd::prelude::*;

use crate::common_structs::GpsFix;
use crate::common_structs::ImuReadings;
use crate::frame::black;
use crate::frame::LedUpdate;
use crate::hsv::hsv_spec;
use crate::hsv::random_saturated_colour;
use crate::patterns::starfield::is_white_star;
use crate::rng::random_in_range;
use crate::LEDS_PER_SPINE;
use crate::SPINES;

verus! {

/// What a freshly spawned colourfield root pixel may hold: nothing, a dim
/// white star, or a fully saturated hue.
pub open spec fn colourfield_root(px: [u8; 3]) -> bool {
    ||| px == black()
    ||| is_white_star(px, 85, 150)
    ||| exists|h: int| 0 <= h < 360000 && px == hsv_spec(h, 1000, 1000)
}

/// Coloured and white points of random intensity drifting outward.
pub struct Colourfield {
    leds: LedUpdate,
}

impl Colourfield {
    /// The frame is in shape.
    pub closed spec fn wf(&self) -> bool {
        self.leds.wf()
    }

    /// The internally owned frame.
    pub closed spec fn frame(&self) -> Seq<Seq<[u8; 3]>> {
        self.leds.grid()
    }

    pub fn new() -> (r: Colourfield)
        ensures
            r.wf(),
            crate::frame::all_black(r.frame()),
    {
        Colourfield { leds: LedUpdate::new_black() }
    }

    /// A borrow of the internally owned frame.
    pub fn frame_ref(&self) -> (r: &LedUpdate)
        requires
            self.wf(),
        ensures
            r.grid() == self.frame(),
            r.wf(),
    {
        &self.leds
    }

    /// Shift every spine one pixel outward; the vacated root pixel becomes,
    /// with small probability, a new star (one in five saturated colour,
    /// the rest white of intensity 85 to 150), and is black otherwise.
    pub fn step(&mut self, _gps: &Option<GpsFix>, _imu: &ImuReadings) -> (r: &LedUpdate)
        requires
            old(self).wf(),
        ensures
            final(self).wf(),
            forall|s: int| #![trigger final(self).frame()[s]]
                0 <= s < SPINES ==> {
                    &&& colourfield_root(final(self).frame()[s][0])
                    &&& forall|k: int|
                        1 <= k < LEDS_PER_SPINE ==> #[trigger] final(self).frame()[s][k] == old(
                            self,
                        ).frame()[s][k - 1]
                },
            r.grid() == final(self).frame(),
            r.wf(),
    {
        let mut s: usize = 0;
        while s < SPINES
            invariant
                self.leds.wf(),
                s <= SPINES,
                forall|q: int| #![trigger self.leds.grid()[q]]
                    0 <= q < s ==> {
                        &&& colourfield_root(self.leds.grid()[q][0])
                        &&& forall|k: int|
                            1 <= k < LEDS_PER_SPINE ==> #[trigger] self.leds.grid()[q][k] == old(
                                self,
                            ).frame()[q][k - 1]
                    },
                forall|q: int|
                    s <= q < SPINES ==> #[trigger] self.leds.grid()[q] == old(self).frame()[q],
            decreases SPINES - s,
        {
            self.leds.shift_out(s);
            let root: [u8; 3] = if random_in_range(0, 999) < 83 {
                if random_in_range(0, 4) == 0 {
                    random_saturated_colour()
                } else {
                    let intensity = random_in_range(85, 150) as u8;
                    [intensity, intensity, intensity]
                }
            } else {
                [0u8, 0u8, 0u8]
            };
            proof {
                assert(colourfield_root(root));
            }
            self.leds.set(s, 0, root);
            s += 1;
        }
        &self.leds
    }

    /// The pattern's registry name.
    pub fn get_name(&self) -> (r: &'static str)
        ensures
            r@ == "colourfield"@,
    {
        "colourfield"
    }
}

} // verus!

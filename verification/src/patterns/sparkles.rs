//! Sparkles: every third frame, light a random scattering of white pixel
//! pairs.

use vstd::prelude::*;

use crate::common_structs::GpsFix;
use crate::common_structs::ImuReadings;
use crate::frame::black;
use crate::frame::LedUpdate;
use crate::rng::random_in_range;
use crate::LEDS_PER_SPINE;
use crate::SPINES;

verus! {

/// Divide the frame rate by this number.
pub const FRAME_SKIP: usize = 3;

/// A pixel is either off or fully white.
pub open spec fn black_or_white(px: [u8; 3]) -> bool {
    px == black() || px == [255u8, 255u8, 255u8]
}

/// Every white pixel sits beside another white pixel, except near the tip
/// of a spine where a sparkle may have no room for its outward neighbour.
pub open spec fn paired_whites(g: Seq<Seq<[u8; 3]>>) -> bool {
    forall|s: int, j: int| #![trigger g[s][j]]
        0 <= s < g.len() && 0 <= j < g[s].len() && g[s][j] == [255u8, 255u8, 255u8] ==> {
            ||| j + 1 < g[s].len() && g[s][j + 1] == [255u8, 255u8, 255u8]
            ||| 1 <= j && g[s][j - 1] == [255u8, 255u8, 255u8]
            ||| j >= LEDS_PER_SPINE - 2
        }
}

/// Random white sparkles, refreshed every third frame.
pub struct Sparkles {
    leds: LedUpdate,
    /// Frame counter modulo `FRAME_SKIP`.
    i: usize,
}

impl Sparkles {
    /// The frame and counter are in shape.
    pub closed spec fn wf(&self) -> bool {
        &&& self.leds.wf()
        &&& self.i < FRAME_SKIP
    }

    /// The current skip counter.
    pub closed spec fn counter(&self) -> int {
        self.i as int
    }

    /// The internally owned frame.
    pub closed spec fn frame(&self) -> Seq<Seq<[u8; 3]>> {
        self.leds.grid()
    }

    pub fn new() -> (r: Sparkles)
        ensures
            r.wf(),
            r.counter() == 0,
            crate::frame::all_black(r.frame()),
    {
        Sparkles { leds: LedUpdate::new_black(), i: 0 }
    }

    /// A borrow of the internally owned frame.
    pub fn frame_ref(&self) -> (r: &LedUpdate)
        requires
            self.wf(),
        ensures
            r.grid() == self.frame(),
            r.wf(),
    {
        &self.leds
    }

    /// On every third call, clear the frame and then, for each pixel with
    /// probability one percent, light it and its outward neighbour white;
    /// other calls leave the frame untouched.
    pub fn step(&mut self, _gps: &Option<GpsFix>, _imu: &ImuReadings) -> (r: &LedUpdate)
        requires
            old(self).wf(),
        ensures
            final(self).wf(),
            final(self).counter() == (old(self).counter() + 1) % (FRAME_SKIP as int),
            old(self).counter() != 0 ==> final(self).frame() == old(self).frame(),
            old(self).counter() == 0 ==> forall|s: int, k: int|
                0 <= s < SPINES && 0 <= k < LEDS_PER_SPINE ==> black_or_white(
                    #[trigger] final(self).frame()[s][k],
                ),
            old(self).counter() == 0 ==> paired_whites(final(self).frame()),
            r.grid() == final(self).frame(),
            r.wf(),
    {
        if self.i % FRAME_SKIP == 0 {
            self.leds.fill([0u8, 0u8, 0u8]);
            let mut s: usize = 0;
            while s < SPINES
                invariant
                    self.leds.wf(),
                    self.i == old(self).i,
                    old(self).wf(),
                    s <= SPINES,
                    forall|q: int, j: int|
                        0 <= q < SPINES && 0 <= j < LEDS_PER_SPINE ==> black_or_white(
                            #[trigger] self.leds.grid()[q][j],
                        ),
                    paired_whites(self.leds.grid()),
                decreases SPINES - s,
            {
                let mut k: usize = 0;
                while k < LEDS_PER_SPINE
                    invariant
                        self.leds.wf(),
                        self.i == old(self).i,
                        old(self).wf(),
                        s < SPINES,
                        k <= LEDS_PER_SPINE,
                        forall|q: int, j: int|
                            0 <= q < SPINES && 0 <= j < LEDS_PER_SPINE ==> black_or_white(
                                #[trigger] self.leds.grid()[q][j],
                            ),
                        paired_whites(self.leds.grid()),
                    decreases LEDS_PER_SPINE - k,
                {
                    if random_in_range(0, 99) == 0 {
                        let ghost pre = self.leds.grid();
                        self.leds.set(s, k, [255u8, 255u8, 255u8]);
                        if k < LEDS_PER_SPINE - 2 {
                            self.leds.set(s, k + 1, [255u8, 255u8, 255u8]);
                        }
                        proof {
                            let g = self.leds.grid();
                            assert forall|q: int, j: int| #![trigger g[q][j]]
                                0 <= q < g.len() && 0 <= j < g[q].len() && g[q][j] == [
                                255u8,
                                255u8,
                                255u8,
                            ] implies {
                                ||| j + 1 < g[q].len() && g[q][j + 1] == [255u8, 255u8, 255u8]
                                ||| 1 <= j && g[q][j - 1] == [255u8, 255u8, 255u8]
                                ||| j >= LEDS_PER_SPINE - 2
                            } by {
                                if q == s && (j == k || j == k + 1 && k < LEDS_PER_SPINE - 2) {
                                } else {
                                    assert(g[q][j] == pre[q][j]);
                                    assert(pre[q][j] == [255u8, 255u8, 255u8]);
                                }
                            }
                        }
                    }
                    k += 1;
                }
                s += 1;
            }
        }
        self.i = (self.i + 1) % FRAME_SKIP;
        &self.leds
    }

    /// The pattern's registry name.
    pub fn get_name(&self) -> (r: &'static str)
        ensures
            r@ == "sparkles"@,
    {
        "sparkles"
    }
}

} // verus!

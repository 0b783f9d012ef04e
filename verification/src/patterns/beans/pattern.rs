//! The beans pattern proper: one `BeanTube` per opposing spine pair,
//! driven by the projected gravity vector, painted mirrored onto the two
//! member spines.

use vstd::prelude::*;

use crate::common_structs::GpsFix;
use crate::common_structs::ImuReadings;
use crate::frame::black;
use crate::frame::LedUpdate;
use crate::math::div_trunc;
use crate::patterns::beans::bean_sim::colour_at;
use crate::patterns::beans::bean_sim::frame_progress;
use crate::patterns::beans::bean_sim::NUM_BEANS;
use crate::patterns::beans::bean_sim::stacked_spec;
use crate::patterns::beans::bean_sim::tube_wf;
use crate::patterns::beans::bean_sim::BeanTube;
use crate::patterns::beans::bean_sim::TUBE_LEN;
use crate::patterns::geometry::dot_spec;
use crate::patterns::geometry::dot;
use crate::patterns::geometry::spine_direction;
use crate::patterns::geometry::spine_direction_spec;
use crate::patterns::geometry::IVec3;
use crate::patterns::geometry::tube_spines;
use crate::patterns::geometry::tube_spines_spec;
use crate::LEDS_PER_SPINE;
use crate::SPINES;

verus! {

/// Number of bean tubes: one per opposing spine pair.
pub const NUM_TUBES: usize = 6;

/// Frames of the start-up animation: an outward-growing white band.
pub const START_FRAMES: usize = 80;

/// The pixel of the start-up animation at offset `k`, `t` frames in: a
/// white band growing outward from the root.
pub open spec fn start_pixel(t: int, k: int) -> [u8; 3] {
    if k <= t / 4 {
        [255u8, 255u8, 255u8]
    } else {
        black()
    }
}

/// The gravity vector driving the beans for a reading: the negated
/// acceleration, scaled up fivefold for responsiveness (milli-units).
pub open spec fn gravity_of(imu: ImuReadings) -> IVec3 {
    IVec3 { x: (imu.xa * -5) as i64, y: (imu.ya * -5) as i64, z: (imu.za * -5) as i64 }
}

/// The frame acceleration tube `t` sees for a reading: the gravity vector
/// projected on the tube's axis, scaled back to position units.
pub open spec fn tube_accel(imu: ImuReadings, t: int) -> int {
    div_trunc(dot_spec(gravity_of(imu), spine_direction_spec(tube_spines_spec(t).0)), 1000)
}

/// Each opposing spine pair is a tube of beans sliding under gravity.
pub struct Beans {
    leds: LedUpdate,
    /// Frames spent in the start-up animation so far.
    start_timer: usize,
    /// One tube per opposing spine pair.
    bean_tubes: Vec<BeanTube>,
}

impl Beans {
    /// The frame and all six tubes are in shape.
    pub closed spec fn wf(&self) -> bool {
        &&& self.leds.wf()
        &&& self.bean_tubes@.len() == NUM_TUBES
        &&& forall|t: int| 0 <= t < NUM_TUBES ==> tube_wf((#[trigger] self.bean_tubes@[t])@)
        &&& self.start_timer <= START_FRAMES
    }

    /// The internally owned frame.
    pub closed spec fn frame(&self) -> Seq<Seq<[u8; 3]>> {
        self.leds.grid()
    }

    /// Frames spent in the start-up animation so far.
    pub closed spec fn timer(&self) -> int {
        self.start_timer as int
    }

    /// The state of tube `t`.
    pub closed spec fn tube(&self, t: int) -> Seq<crate::patterns::beans::bean_sim::Bean> {
        (self.bean_tubes@[t])@
    }

    /// Make a new beans pattern with all tubes centred and at rest.
    pub fn new_direct() -> (r: Beans)
        ensures
            r.wf(),
            r.timer() == 0,
    {
        let mut bean_tubes: Vec<BeanTube> = Vec::new();
        let mut t: usize = 0;
        while t < NUM_TUBES
            invariant
                t <= NUM_TUBES,
                bean_tubes@.len() == t,
                forall|j: int| 0 <= j < t ==> tube_wf((#[trigger] bean_tubes@[j])@),
            decreases NUM_TUBES - t,
        {
            bean_tubes.push(BeanTube::new());
            t += 1;
        }
        Beans { leds: LedUpdate::new_black(), start_timer: 0, bean_tubes }
    }

    /// Whether all six tubes are stacked at one end or the other.
    pub fn all_stacked(&self) -> (r: bool)
        requires
            self.wf(),
        ensures
            r == forall|t: int| 0 <= t < NUM_TUBES ==> stacked_spec(self.tube(t)),
    {
        let mut t: usize = 0;
        while t < NUM_TUBES
            invariant
                self.wf(),
                t <= NUM_TUBES,
                forall|j: int| 0 <= j < t ==> stacked_spec(self.tube(j)),
            decreases NUM_TUBES - t,
        {
            if !self.bean_tubes[t].is_stacked() {
                proof {
                    assert(!stacked_spec(self.tube(t as int)));
                }
                return false;
            }
            t += 1;
        }
        true
    }

    /// A borrow of the internally owned frame.
    pub fn frame_ref(&self) -> (r: &LedUpdate)
        requires
            self.wf(),
        ensures
            r.grid() == self.frame(),
            r.wf(),
    {
        &self.leds
    }

    /// One frame.  During start-up, show the outward-growing white band and
    /// hold the physics.  Afterwards, project the (negated, responsiveness-
    /// scaled) acceleration onto each tube's axis, step its physics, and
    /// paint the tube mirrored onto its two spines.
    #[verifier::rlimit(80)]
    pub fn step(&mut self, _gps: &Option<GpsFix>, imu: &ImuReadings) -> (r: &LedUpdate)
        requires
            old(self).wf(),
            imu.in_bounds(),
        ensures
            final(self).wf(),
            old(self).timer() < START_FRAMES ==> {
                &&& final(self).timer() == old(self).timer() + 1
                &&& forall|t: int| 0 <= t < NUM_TUBES ==> #[trigger] final(self).tube(t) == old(
                    self,
                ).tube(t)
                &&& forall|s: int, k: int|
                    0 <= s < SPINES && 0 <= k < LEDS_PER_SPINE
                        ==> #[trigger] final(self).frame()[s][k] == start_pixel(
                        old(self).timer(),
                        k,
                    )
            },
            old(self).timer() >= START_FRAMES ==> {
                &&& final(self).timer() == old(self).timer()
                &&& forall|t: int|
                    0 <= t < NUM_TUBES ==> #[trigger] frame_progress(
                        old(self).tube(t),
                        final(self).tube(t),
                        tube_accel(*imu, t),
                    )
                &&& forall|t: int, k: int|
                    0 <= t < NUM_TUBES && 0 <= k < NUM_BEANS
                        ==> #[trigger] final(self).tube(t)[k].colour == old(self).tube(t)[k].colour
                &&& forall|t: int, k: int|
                    0 <= t < NUM_TUBES && 0 <= k < LEDS_PER_SPINE ==> {
                        &&& #[trigger] final(self).frame()[tube_spines_spec(t).0][k] == colour_at(
                            final(self).tube(t),
                            LEDS_PER_SPINE - 1 - k,
                        )
                        &&& final(self).frame()[tube_spines_spec(t).1][k] == colour_at(
                            final(self).tube(t),
                            TUBE_LEN - 1 - (LEDS_PER_SPINE - 1 - k),
                        )
                    }
            },
            r.grid() == final(self).frame(),
            r.wf(),
    {
        if self.start_timer < START_FRAMES {
            let mut s: usize = 0;
            while s < SPINES
                invariant
                    self.leds.wf(),
                    self.start_timer == old(self).start_timer,
                    self.bean_tubes@ == old(self).bean_tubes@,
                    old(self).wf(),
                    s <= SPINES,
                    forall|q: int, k: int|
                        0 <= q < s && 0 <= k < LEDS_PER_SPINE ==> #[trigger] self.leds.grid()[q][k]
                            == start_pixel(old(self).timer(), k),
                decreases SPINES - s,
            {
                let mut k: usize = 0;
                while k < LEDS_PER_SPINE
                    invariant
                        self.leds.wf(),
                        self.start_timer == old(self).start_timer,
                        self.bean_tubes@ == old(self).bean_tubes@,
                        old(self).wf(),
                        s < SPINES,
                        k <= LEDS_PER_SPINE,
                        forall|q: int, j: int|
                            0 <= q < s && 0 <= j < LEDS_PER_SPINE
                                ==> #[trigger] self.leds.grid()[q][j] == start_pixel(
                                old(self).timer(),
                                j,
                            ),
                        forall|j: int|
                            0 <= j < k ==> #[trigger] self.leds.grid()[s as int][j] == start_pixel(
                                old(self).timer(),
                                j,
                            ),
                    decreases LEDS_PER_SPINE - k,
                {
                    let px = if k <= self.start_timer / 4 {
                        [255u8, 255u8, 255u8]
                    } else {
                        [0u8, 0u8, 0u8]
                    };
                    self.leds.set(s, k, px);
                    k += 1;
                }
                s += 1;
            }
            self.start_timer = self.start_timer + 1;
            return &self.leds;
        }
        // Invert the acceleration (we want the force on the beans) and
        // scale it up for responsiveness.
        let gravity = imu.accel_vector().scale(-5);
        proof {
            assert(gravity.bounded(50_000_000));
        }
        let mut t: usize = 0;
        while t < NUM_TUBES
            invariant
                self.leds.wf(),
                self.start_timer == old(self).start_timer,
                old(self).wf(),
                imu.in_bounds(),
                gravity == gravity_of(*imu),
                gravity.bounded(50_000_000),
                self.bean_tubes@.len() == NUM_TUBES,
                forall|j: int| 0 <= j < NUM_TUBES ==> tube_wf((#[trigger] self.bean_tubes@[j])@),
                t <= NUM_TUBES,
                forall|j: int| (t as int) <= j < NUM_TUBES ==> #[trigger] self.bean_tubes@[j]
                    == old(self).bean_tubes@[j],
                forall|j: int|
                    0 <= j < t ==> #[trigger] frame_progress(
                        old(self).tube(j),
                        (self.bean_tubes@[j])@,
                        tube_accel(*imu, j),
                    ),
                forall|j: int, k: int|
                    0 <= j < t && 0 <= k < NUM_BEANS ==> #[trigger] (self.bean_tubes@[j])@[k].colour
                        == old(self).tube(j)[k].colour,
                forall|j: int, k: int|
                    0 <= j < t && 0 <= k < LEDS_PER_SPINE ==> {
                        &&& #[trigger] self.leds.grid()[tube_spines_spec(j).0][k] == colour_at(
                            (self.bean_tubes@[j])@,
                            LEDS_PER_SPINE - 1 - k,
                        )
                        &&& self.leds.grid()[tube_spines_spec(j).1][k] == colour_at(
                            (self.bean_tubes@[j])@,
                            TUBE_LEN - 1 - (LEDS_PER_SPINE - 1 - k),
                        )
                    },
            decreases NUM_TUBES - t,
        {
            let (spine1, spine2) = tube_spines(t);
            let direction = spine_direction(spine1);
            proof {
                crate::math::lemma_mul_bounds(
                    gravity.x as int,
                    direction.x as int,
                    50_000_000,
                    1000,
                );
                crate::math::lemma_mul_bounds(
                    gravity.y as int,
                    direction.y as int,
                    50_000_000,
                    1000,
                );
                crate::math::lemma_mul_bounds(
                    gravity.z as int,
                    direction.z as int,
                    50_000_000,
                    1000,
                );
            }
            let acceleration = dot(&gravity, &direction) / 1000;
            proof {
                assert(acceleration as int == tube_accel(*imu, t as int));
            }
            let tube = &mut self.bean_tubes[t];
            tube.step(acceleration);
            proof {
                assert(spine1 != spine2);
                assert forall|j: int| 0 <= j < NUM_TUBES && j != t implies tube_spines_spec(j).0
                    != spine1 as int && tube_spines_spec(j).0 != spine2 as int
                    && tube_spines_spec(j).1 != spine1 as int && tube_spines_spec(j).1
                    != spine2 as int && 0 <= tube_spines_spec(j).0 < SPINES && 0
                    <= tube_spines_spec(j).1 < SPINES by {}
            }
            paint_tube(&mut self.leds, &self.bean_tubes[t], spine1, spine2);
            t += 1;
        }
        &self.leds
    }

    /// The pattern's registry name.
    pub fn get_name(&self) -> (r: &'static str)
        ensures
            r@ == "beans"@,
    {
        "beans"
    }
}

/// Paint one tube onto its two spines, mirrored: the first spine shows the
/// tube's left half from the tip inward, the second its right half.
fn paint_tube(leds: &mut LedUpdate, tube: &BeanTube, spine1: usize, spine2: usize)
    requires
        old(leds).wf(),
        tube_wf(tube@),
        spine1 < SPINES,
        spine2 < SPINES,
        spine1 != spine2,
    ensures
        final(leds).wf(),
        forall|q: int|
            0 <= q < SPINES && q != spine1 && q != spine2 ==> #[trigger] final(leds).grid()[q]
                == old(leds).grid()[q],
        forall|m: int|
            0 <= m < LEDS_PER_SPINE ==> #[trigger] final(leds).grid()[spine1 as int][m]
                == colour_at(tube@, LEDS_PER_SPINE - 1 - m),
        forall|m: int|
            0 <= m < LEDS_PER_SPINE ==> #[trigger] final(leds).grid()[spine2 as int][m]
                == colour_at(tube@, TUBE_LEN - 1 - (LEDS_PER_SPINE - 1 - m)),
{
    let mut k: usize = 0;
    while k < LEDS_PER_SPINE
        invariant
            leds.wf(),
            tube_wf(tube@),
            spine1 < SPINES,
            spine2 < SPINES,
            spine1 != spine2,
            k <= LEDS_PER_SPINE,
            forall|q: int|
                0 <= q < SPINES && q != spine1 && q != spine2 ==> #[trigger] leds.grid()[q] == old(
                    leds,
                ).grid()[q],
            forall|m: int|
                0 <= m < k ==> #[trigger] leds.grid()[spine1 as int][m] == colour_at(
                    tube@,
                    LEDS_PER_SPINE - 1 - m,
                ),
            forall|m: int|
                0 <= m < k ==> #[trigger] leds.grid()[spine2 as int][m] == colour_at(
                    tube@,
                    TUBE_LEN - 1 - (LEDS_PER_SPINE - 1 - m),
                ),
        decreases LEDS_PER_SPINE - k,
    {
        let c1 = tube.get_colour(LEDS_PER_SPINE - 1 - k);
        leds.set(spine1, k, c1);
        let c2 = tube.get_colour(TUBE_LEN - 1 - (LEDS_PER_SPINE - 1 - k));
        leds.set(spine2, k, c2);
        k += 1;
    }
}

} // verus!

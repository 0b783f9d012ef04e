//! Physics simulation for the "beans" pattern: a one-dimensional tube of
//! ordered, unit-diameter particles under a projected acceleration, with
//! inelastic collisions against neighbours and the tube ends.
//!
//! Positions and velocities are fixed-point integers: one pixel slot is
//! `SLOT` (1000) units, so a position of 38500 means slot 38.5.  Each frame
//! runs `STEPS_PER_FRAME` sub-steps; a sub-step applies one tenth of a
//! second of the per-sub-step acceleration.  Beans are processed in index
//! order, each coupling to the already-updated left neighbour and the
//! not-yet-updated right neighbour (a Gauss-Seidel-style update).

use vstd::prelude::*;

use crate::frame::black;
use crate::math::div_trunc;
use crate::rng::random_in_range;

verus! {

/// Number of pixel slots in a tube (two opposing spines).
pub const TUBE_LEN: usize = 118;

/// Number of beans in a tube; less than `TUBE_LEN`.
pub const NUM_BEANS: usize = 41;

/// Sub-steps per rendered frame.
pub const STEPS_PER_FRAME: usize = 10;

/// Fixed-point scale: position units per pixel slot.
pub const SLOT: i64 = 1000;

/// The largest representable position: the right end of the tube,
/// `(TUBE_LEN - 1) * SLOT`.
pub const POS_MAX: i64 = 117_000;

/// Velocities are clipped to this magnitude; far beyond anything the tube
/// geometry can produce, it only keeps the arithmetic in range.
pub const VEL_CAP: i64 = 1_000_000_000_000;

/// Largest per-sub-step acceleration magnitude (position units per second
/// per second, after the division by 100).
pub const SUB_ACCEL_LIMIT: i64 = 1_000_000_000;

/// Largest acceleration magnitude `step` accepts.
pub const STEP_ACCEL_LIMIT: i64 = 100_000_000_000;

/// One particle: continuous position and velocity inside the tube, plus a
/// display colour.
#[derive(Clone, Copy, Debug)]
pub struct Bean {
    /// Position in fixed-point units, between 0 and `POS_MAX` inclusive.
    pub position: i64,
    /// Velocity in position units per second.
    pub velocity: i64,
    /// The colour of the bean.
    pub colour: [u8; 3],
}

/// A bean's fields are in range.
pub open spec fn bean_wf(b: Bean) -> bool {
    &&& 0 <= b.position <= POS_MAX
    &&& -VEL_CAP <= b.velocity <= VEL_CAP
}

/// Beans are ordered by position with at least one slot between
/// neighbours (the exclusion rule).
pub open spec fn ordered(s: Seq<Bean>) -> bool {
    forall|i: int| #![trigger s[i]]
        0 <= i && i + 1 < s.len() ==> s[i].position + SLOT <= s[i + 1].position
}

/// The tube invariant: bean count, per-bean bounds, and exclusion.
pub open spec fn tube_wf(s: Seq<Bean>) -> bool {
    &&& s.len() == NUM_BEANS
    &&& (forall|i: int| 0 <= i < s.len() ==> bean_wf(#[trigger] s[i]))
    &&& ordered(s)
}

/// Velocity clipped to the representable cap.
pub open spec fn clamp_vel(v: int) -> int {
    if v > VEL_CAP {
        VEL_CAP as int
    } else if v < -VEL_CAP {
        -(VEL_CAP as int)
    } else {
        v
    }
}

/// A bean from unbounded intermediate values (used only where the values
/// are known to be in range).
pub open spec fn mk_bean(p: int, v: int, c: [u8; 3]) -> Bean {
    Bean { position: p as i64, velocity: v as i64, colour: c }
}

/// The sub-step update of bean `i` against the current sequence: apply
/// acceleration and fuzz to the velocity, move, then resolve a collision
/// with the blocking neighbour or tube end on the side of travel.
pub open spec fn update_bean(s: Seq<Bean>, i: int, accel: int, fuzz: int) -> Bean {
    let b = s[i];
    let v = clamp_vel(b.velocity + div_trunc(accel + fuzz, 10));
    let next = b.position + div_trunc(v, 10);
    if v > 0 {
        if i + 1 < s.len() {
            let right = s[i + 1];
            if right.position - next < SLOT {
                mk_bean(
                    right.position - SLOT,
                    if right.velocity > 0 {
                        right.velocity as int
                    } else {
                        0
                    },
                    b.colour,
                )
            } else {
                mk_bean(next, v, b.colour)
            }
        } else {
            if POS_MAX - next < SLOT {
                mk_bean(POS_MAX as int, 0, b.colour)
            } else {
                mk_bean(next, v, b.colour)
            }
        }
    } else if v < 0 {
        if i > 0 {
            let left = s[i - 1];
            if next - left.position < SLOT {
                mk_bean(
                    left.position + SLOT,
                    if left.velocity < 0 {
                        left.velocity as int
                    } else {
                        0
                    },
                    b.colour,
                )
            } else {
                mk_bean(next, v, b.colour)
            }
        } else {
            if next < 0 {
                mk_bean(0, 0, b.colour)
            } else {
                mk_bean(next, v, b.colour)
            }
        }
    } else {
        mk_bean(b.position as int, 0, b.colour)
    }
}

/// The whole sub-step from bean `i` on: update each bean in index order
/// against the partially updated sequence.
pub open spec fn sub_step_seq(s: Seq<Bean>, i: int, accel: int, fuzz: Seq<i64>) -> Seq<Bean>
    decreases s.len() - i,
{
    if i < 0 || i >= s.len() {
        s
    } else {
        sub_step_seq(s.update(i, update_bean(s, i, accel, fuzz[i] as int)), i + 1, accel, fuzz)
    }
}

/// One fuzz vector per bean, each entry within the magnitude bound.
pub open spec fn fuzz_wf(f: Seq<i64>, bound: int) -> bool {
    f.len() == NUM_BEANS && forall|k: int| 0 <= k < f.len() ==> -bound <= #[trigger] f[k] <= bound
}

/// A frame of sub-steps applied in order: each entry of `fz` is one
/// sub-step's per-bean velocity fuzz.
pub open spec fn frame_steps(s: Seq<Bean>, accel: int, fz: Seq<Seq<i64>>) -> Seq<Bean>
    decreases fz.len(),
{
    if fz.len() == 0 {
        s
    } else {
        frame_steps(sub_step_seq(s, 0, accel, fz.first()), accel, fz.drop_first())
    }
}

/// The tube made one frame of progress under `accel`: ten sub-steps at a
/// hundredth of the acceleration, each with some per-bean velocity fuzz of
/// at most that magnitude.
pub open spec fn frame_progress(pre: Seq<Bean>, post: Seq<Bean>, accel: int) -> bool {
    let a = div_trunc(accel, 100);
    let bound = if a >= 0 {
        a
    } else {
        -a
    };
    exists|fz: Seq<Seq<i64>>|
        fz.len() == STEPS_PER_FRAME && (forall|n: int|
            0 <= n < fz.len() ==> fuzz_wf(#[trigger] fz[n], bound)) && post == frame_steps(
            pre,
            a,
            fz,
        )
}

/// Appending one more sub-step to a frame of sub-steps applies it last.
proof fn lemma_frame_steps_push(s: Seq<Bean>, accel: int, fz: Seq<Seq<i64>>, v: Seq<i64>)
    ensures
        frame_steps(s, accel, fz.push(v)) == sub_step_seq(frame_steps(s, accel, fz), 0, accel, v),
    decreases fz.len(),
{
    if fz.len() == 0 {
        assert(fz.push(v).first() == v);
        assert(fz.push(v).drop_first() =~= Seq::<Seq<i64>>::empty());
        assert(frame_steps(s, accel, fz) == s);
        assert(frame_steps(s, accel, fz.push(v)) == frame_steps(
            sub_step_seq(s, 0, accel, v),
            accel,
            fz.push(v).drop_first(),
        ));
        assert(frame_steps(sub_step_seq(s, 0, accel, v), accel, fz.push(v).drop_first())
            == sub_step_seq(s, 0, accel, v));
    } else {
        assert(fz.push(v).first() == fz.first());
        assert(fz.push(v).drop_first() =~= fz.drop_first().push(v));
        assert(frame_steps(s, accel, fz.push(v)) == frame_steps(
            sub_step_seq(s, 0, accel, fz.first()),
            accel,
            fz.drop_first().push(v),
        ));
        assert(frame_steps(s, accel, fz) == frame_steps(
            sub_step_seq(s, 0, accel, fz.first()),
            accel,
            fz.drop_first(),
        ));
        lemma_frame_steps_push(sub_step_seq(s, 0, accel, fz.first()), accel, fz.drop_first(), v);
    }
}

/// Updating bean `i` preserves the tube invariant: the new bean stays in
/// range, keeps its colour, and keeps at least one slot of separation from
/// the updated left neighbour and the not-yet-updated right neighbour.
proof fn lemma_update_preserves(s: Seq<Bean>, i: int, accel: int, fuzz: int)
    requires
        s.len() == NUM_BEANS,
        0 <= i < s.len(),
        forall|k: int| 0 <= k < s.len() ==> bean_wf(#[trigger] s[k]),
        ordered(s),
        -SUB_ACCEL_LIMIT <= accel <= SUB_ACCEL_LIMIT,
        -SUB_ACCEL_LIMIT <= fuzz <= SUB_ACCEL_LIMIT,
    ensures
        bean_wf(update_bean(s, i, accel, fuzz)),
        update_bean(s, i, accel, fuzz).colour == s[i].colour,
        forall|k: int|
            0 <= k < s.len() ==> bean_wf(#[trigger] s.update(i, update_bean(s, i, accel, fuzz))[k]),
        ordered(s.update(i, update_bean(s, i, accel, fuzz))),
{
    let b = s[i];
    let v = clamp_vel(b.velocity + div_trunc(accel + fuzz, 10));
    let next = b.position + div_trunc(v, 10);
    let nb = update_bean(s, i, accel, fuzz);
    let s2 = s.update(i, nb);
    assert(v > 0 ==> div_trunc(v, 10) >= 0);
    assert(v < 0 ==> div_trunc(v, 10) <= 0);
    if i > 0 {
        assert(s[i - 1].position + SLOT <= s[i].position);
    }
    if i + 1 < s.len() {
        assert(s[i].position + SLOT <= s[i + 1].position);
    }
    assert(bean_wf(nb));
    assert forall|k: int| #![trigger s2[k]] 0 <= k && k + 1 < s2.len() implies s2[k].position
        + SLOT <= s2[k + 1].position by {
        if k + 1 < i || k > i {
            assert(s2[k] == s[k] && s2[k + 1] == s[k + 1]);
        } else if k + 1 == i {
            assert(s2[k] == s[k]);
            assert(s2[k + 1] == nb);
        } else {
            assert(s2[k] == nb);
            assert(s2[k + 1] == s[k + 1]);
        }
    }
}

/// A tube with `NUM_BEANS` beans which slide back and forth.
pub struct BeanTube {
    beans: Vec<Bean>,
}

impl View for BeanTube {
    type V = Seq<Bean>;

    closed spec fn view(&self) -> Seq<Bean> {
        self.beans@
    }
}

/// A bean's continuous position rounds to this pixel slot (nearest, ties
/// away from the tube's left end).
pub open spec fn rounds_to(b: Bean, slot: int) -> bool {
    (b.position + 500) / 1000 == slot
}

/// The colour shown at a slot: the first bean (in index order) that rounds
/// to it, or black if none does.
pub open spec fn colour_at(s: Seq<Bean>, slot: int) -> [u8; 3]
    decreases s.len(),
{
    if s.len() == 0 {
        black()
    } else if rounds_to(s[0], slot) {
        s[0].colour
    } else {
        colour_at(s.subrange(1, s.len() as int), slot)
    }
}

/// All beans packed against one end of the tube: the last bean within half
/// a slot of the left-packed layout, or the first within half a slot of the
/// right-packed layout.
pub open spec fn stacked_spec(s: Seq<Bean>) -> bool {
    ||| s.last().position < (NUM_BEANS as int) * (SLOT as int) - 500
    ||| s[0].position > ((TUBE_LEN - NUM_BEANS) as int) * (SLOT as int) - 500
}

impl BeanTube {
    /// A new tube with the beans resting in a block at the centre: bean `i`
    /// at position `38500 + 1000 * i`, stationary and white.
    pub fn new() -> (r: BeanTube)
        ensures
            tube_wf(r@),
            r@.len() == NUM_BEANS,
            forall|i: int|
                0 <= i < NUM_BEANS ==> #[trigger] r@[i] == mk_bean(
                    38500 + 1000 * i,
                    0,
                    [255u8, 255u8, 255u8],
                ),
    {
        let mut beans: Vec<Bean> = Vec::new();
        let mut i: usize = 0;
        while i < NUM_BEANS
            invariant
                i <= NUM_BEANS,
                beans@.len() == i,
                forall|k: int|
                    0 <= k < i ==> #[trigger] beans@[k] == mk_bean(
                        38500 + 1000 * k,
                        0,
                        [255u8, 255u8, 255u8],
                    ),
            decreases NUM_BEANS - i,
        {
            beans.push(
                Bean {
                    position: 38500 + 1000 * (i as i64),
                    velocity: 0,
                    colour: [255u8, 255u8, 255u8],
                },
            );
            i += 1;
        }
        BeanTube { beans }
    }

    /// One deterministic sub-step: the per-bean velocity fuzz is passed in
    /// rather than drawn, so the result is an exact function of the inputs.
    pub fn sub_step_with_fuzz(&mut self, accel: i64, fuzz: &Vec<i64>)
        requires
            tube_wf(old(self)@),
            -SUB_ACCEL_LIMIT <= accel <= SUB_ACCEL_LIMIT,
            fuzz@.len() == NUM_BEANS,
            forall|k: int| 0 <= k < NUM_BEANS ==> -SUB_ACCEL_LIMIT <= #[trigger] fuzz@[k]
                <= SUB_ACCEL_LIMIT,
        ensures
            tube_wf(final(self)@),
            final(self)@ == sub_step_seq(old(self)@, 0, accel as int, fuzz@),
            forall|k: int| 0 <= k < NUM_BEANS ==> #[trigger] final(self)@[k].colour == old(
                self,
            )@[k].colour,
    {
        let ghost orig = self.beans@;
        let mut i: usize = 0;
        while i < NUM_BEANS
            invariant
                i <= NUM_BEANS,
                self.beans@.len() == NUM_BEANS,
                -SUB_ACCEL_LIMIT <= accel <= SUB_ACCEL_LIMIT,
                fuzz@.len() == NUM_BEANS,
                forall|k: int| 0 <= k < NUM_BEANS ==> -SUB_ACCEL_LIMIT <= #[trigger] fuzz@[k]
                    <= SUB_ACCEL_LIMIT,
                forall|k: int| 0 <= k < NUM_BEANS ==> bean_wf(#[trigger] self.beans@[k]),
                ordered(self.beans@),
                forall|k: int| i <= k < NUM_BEANS ==> #[trigger] self.beans@[k] == orig[k],
                forall|k: int| 0 <= k < NUM_BEANS ==> #[trigger] self.beans@[k].colour
                    == orig[k].colour,
                sub_step_seq(orig, 0, accel as int, fuzz@) == sub_step_seq(
                    self.beans@,
                    i as int,
                    accel as int,
                    fuzz@,
                ),
            decreases NUM_BEANS - i,
        {
            let ghost pre = self.beans@;
            let nb = compute_update(&self.beans, i, accel, fuzz[i]);
            proof {
                lemma_update_preserves(pre, i as int, accel as int, fuzz@[i as int] as int);
            }
            self.beans[i] = nb;
            i += 1;
        }
    }

    /// One frame of physics under the given acceleration along the tube
    /// (positive toward the right end, in position units per second per
    /// second): `STEPS_PER_FRAME` sub-steps, each at a hundredth of the
    /// acceleration plus a random velocity fuzz of at most that magnitude.
    /// Whatever the fuzz, the result is a frame of sub-steps under some
    /// such fuzz, the tube invariant holds afterwards, and every bean keeps
    /// its colour.
    pub fn step(&mut self, acceleration: i64)
        requires
            tube_wf(old(self)@),
            -STEP_ACCEL_LIMIT <= acceleration <= STEP_ACCEL_LIMIT,
        ensures
            tube_wf(final(self)@),
            frame_progress(old(self)@, final(self)@, acceleration as int),
            forall|k: int| 0 <= k < NUM_BEANS ==> #[trigger] final(self)@[k].colour == old(
                self,
            )@[k].colour,
    {
        let sub_accel = acceleration / 100;
        let fuzz_mag = if sub_accel >= 0 {
            sub_accel
        } else {
            -sub_accel
        };
        let ghost mut fzs: Seq<Seq<i64>> = Seq::empty();
        let mut n: usize = 0;
        while n < STEPS_PER_FRAME
            invariant
                tube_wf(self.beans@),
                tube_wf(old(self)@),
                sub_accel == div_trunc(acceleration as int, 100),
                -SUB_ACCEL_LIMIT <= sub_accel <= SUB_ACCEL_LIMIT,
                fuzz_mag == if sub_accel >= 0 {
                    sub_accel as int
                } else {
                    -(sub_accel as int)
                },
                n <= STEPS_PER_FRAME,
                fzs.len() == n,
                forall|m: int| 0 <= m < fzs.len() ==> fuzz_wf(#[trigger] fzs[m], fuzz_mag as int),
                self.beans@ == frame_steps(old(self)@, sub_accel as int, fzs),
                forall|k: int| 0 <= k < NUM_BEANS ==> #[trigger] self.beans@[k].colour == old(
                    self,
                )@[k].colour,
            decreases STEPS_PER_FRAME - n,
        {
            let mut fuzz: Vec<i64> = Vec::new();
            let mut j: usize = 0;
            while j < NUM_BEANS
                invariant
                    0 <= fuzz_mag <= SUB_ACCEL_LIMIT,
                    fuzz@.len() == j,
                    j <= NUM_BEANS,
                    forall|k: int| 0 <= k < j ==> -fuzz_mag <= #[trigger] fuzz@[k] <= fuzz_mag,
                decreases NUM_BEANS - j,
            {
                fuzz.push(random_in_range(-fuzz_mag, fuzz_mag));
                j += 1;
            }
            let ghost pre = self.beans@;
            self.sub_step_with_fuzz(sub_accel, &fuzz);
            proof {
                lemma_frame_steps_push(old(self)@, sub_accel as int, fzs, fuzz@);
                fzs = fzs.push(fuzz@);
            }
            n += 1;
        }
    }

    /// The colour shown at pixel slot `i`: each bean's position is rounded
    /// to the nearest slot, and the first bean that rounds to `i` gives its
    /// colour; black if none does.
    pub fn get_colour(&self, i: usize) -> (r: [u8; 3])
        requires
            tube_wf(self@),
            i < TUBE_LEN,
        ensures
            r == colour_at(self@, i as int),
    {
        proof {
            assert(self@.subrange(0, NUM_BEANS as int) =~= self@);
        }
        let mut j: usize = 0;
        while j < NUM_BEANS
            invariant
                tube_wf(self@),
                j <= NUM_BEANS,
                i < TUBE_LEN,
                colour_at(self@, i as int) == colour_at(
                    self@.subrange(j as int, NUM_BEANS as int),
                    i as int,
                ),
            decreases NUM_BEANS - j,
        {
            let b = self.beans[j];
            let ghost tail_seq = self@.subrange(j as int, NUM_BEANS as int);
            proof {
                assert(tail_seq[0] == self@[j as int]);
                assert(tail_seq.subrange(1, tail_seq.len() as int) =~= self@.subrange(
                    j + 1,
                    NUM_BEANS as int,
                ));
            }
            if (b.position + 500) / 1000 == i as i64 {
                return b.colour;
            }
            j += 1;
        }
        proof {
            assert(self@.subrange(NUM_BEANS as int, NUM_BEANS as int) =~= Seq::<Bean>::empty());
        }
        [0u8, 0u8, 0u8]
    }

    /// Whether all beans are packed against one end of the tube.
    pub fn is_stacked(&self) -> (r: bool)
        requires
            tube_wf(self@),
        ensures
            r == stacked_spec(self@),
    {
        let last = self.beans[NUM_BEANS - 1];
        let first = self.beans[0];
        let stacked_left = last.position < (NUM_BEANS as i64) * SLOT - 500;
        let stacked_right = first.position > ((TUBE_LEN - NUM_BEANS) as i64) * SLOT - 500;
        stacked_left || stacked_right
    }
}

/// Compute the sub-step update of bean `i` (the executable mirror of
/// `update_bean`).
fn compute_update(beans: &Vec<Bean>, i: usize, accel: i64, fz: i64) -> (nb: Bean)
    requires
        beans@.len() == NUM_BEANS,
        i < NUM_BEANS,
        forall|k: int| 0 <= k < NUM_BEANS ==> bean_wf(#[trigger] beans@[k]),
        ordered(beans@),
        -SUB_ACCEL_LIMIT <= accel <= SUB_ACCEL_LIMIT,
        -SUB_ACCEL_LIMIT <= fz <= SUB_ACCEL_LIMIT,
    ensures
        nb == update_bean(beans@, i as int, accel as int, fz as int),
{
    let b = beans[i];
    let dv = (accel + fz) / 10;
    let mut v = b.velocity + dv;
    if v > VEL_CAP {
        v = VEL_CAP;
    }
    if v < -VEL_CAP {
        v = -VEL_CAP;
    }
    proof {
        assert(v as int == clamp_vel(b.velocity + div_trunc(accel as int + fz as int, 10)));
        assert(v > 0 ==> div_trunc(v as int, 10) >= 0);
        assert(v < 0 ==> div_trunc(v as int, 10) <= 0);
    }
    let next = b.position + v / 10;
    if v > 0 {
        if i + 1 < NUM_BEANS {
            let right = beans[i + 1];
            if right.position - next < SLOT {
                Bean {
                    position: right.position - SLOT,
                    velocity: if right.velocity > 0 {
                        right.velocity
                    } else {
                        0
                    },
                    colour: b.colour,
                }
            } else {
                Bean { position: next, velocity: v, colour: b.colour }
            }
        } else {
            if POS_MAX - next < SLOT {
                Bean { position: POS_MAX, velocity: 0, colour: b.colour }
            } else {
                Bean { position: next, velocity: v, colour: b.colour }
            }
        }
    } else if v < 0 {
        if i > 0 {
            let left = beans[i - 1];
            if next - left.position < SLOT {
                Bean {
                    position: left.position + SLOT,
                    velocity: if left.velocity < 0 {
                        left.velocity
                    } else {
                        0
                    },
                    colour: b.colour,
                }
            } else {
                Bean { position: next, velocity: v, colour: b.colour }
            }
        } else {
            if next < 0 {
                Bean { position: 0, velocity: 0, colour: b.colour }
            } else {
                Bean { position: next, velocity: v, colour: b.colour }
            }
        }
    } else {
        Bean { position: b.position, velocity: 0, colour: b.colour }
    }
}

} // verus!

//! The LED frame: a fixed-shape grid of 24-bit RGB pixels, one row per
//! spine.  Patterns render into a frame; the output stage consumes it.

use vstd::prelude::*;

use crate::LEDS_PER_SPINE;
use crate::SPINES;

verus! {

/// A fully black pixel.
pub open spec fn black() -> [u8; 3] {
    [0u8, 0u8, 0u8]
}

/// One rendered LED state for the whole device: `SPINES` rows of
/// `LEDS_PER_SPINE` RGB triples.  Index 0 of a row is the root (centre) end
/// of the spine.
pub struct LedUpdate {
    /// Pixel rows, one per spine.
    pub spines: Vec<Vec<[u8; 3]>>,
}

/// One grid is the other advected one pixel toward the root on every row,
/// with black backfilled at the tips.
pub open spec fn advected(g1: Seq<Seq<[u8; 3]>>, g2: Seq<Seq<[u8; 3]>>) -> bool {
    &&& g2.len() == g1.len()
    &&& forall|s: int| 0 <= s < g1.len() ==> (#[trigger] g2[s]).len() == g1[s].len()
    &&& forall|s: int, k: int|
        0 <= s < g1.len() && 0 <= k < g1[s].len() - 1 ==> #[trigger] g2[s][k] == g1[s][k + 1]
    &&& forall|s: int|
        0 <= s < g1.len() && g1[s].len() > 0 ==> #[trigger] g2[s][g1[s].len() - 1] == black()
}

/// Whether every pixel of a grid is black.
pub open spec fn all_black(g: Seq<Seq<[u8; 3]>>) -> bool {
    forall|s: int, k: int|
        0 <= s < g.len() && 0 <= k < g[s].len() ==> g[s][k] == black()
}

impl LedUpdate {
    /// The frame as a mathematical grid of pixels.
    pub open spec fn grid(&self) -> Seq<Seq<[u8; 3]>> {
        self.spines@.map_values(|row: Vec<[u8; 3]>| row@)
    }

    /// The frame has exactly `SPINES` rows of `LEDS_PER_SPINE` pixels.
    pub open spec fn wf(&self) -> bool {
        &&& self.grid().len() == SPINES
        &&& forall|s: int| 0 <= s < SPINES ==> #[trigger] self.grid()[s].len() == LEDS_PER_SPINE
    }

    /// An all-black frame of the fixed shape.
    pub fn new_black() -> (r: LedUpdate)
        ensures
            r.wf(),
            all_black(r.grid()),
    {
        let mut spines: Vec<Vec<[u8; 3]>> = Vec::new();
        let mut s: usize = 0;
        while s < SPINES
            invariant
                s <= SPINES,
                spines@.len() == s,
                forall|i: int| #![all_triggers]
                    0 <= i < s ==> spines@[i]@.len() == LEDS_PER_SPINE && forall|k: int|
                        0 <= k < LEDS_PER_SPINE ==> spines@[i]@[k] == black(),
            decreases SPINES - s,
        {
            let row: Vec<[u8; 3]> = vec![[0u8, 0u8, 0u8]; LEDS_PER_SPINE];
            spines.push(row);
            s += 1;
        }
        let r = LedUpdate { spines };
        proof {
            assert(forall|i: int|
                0 <= i < SPINES ==> #[trigger] r.grid()[i] == r.spines@[i]@);
        }
        r
    }

    /// Read the pixel at row `s`, offset `k`.
    pub fn get(&self, s: usize, k: usize) -> (r: [u8; 3])
        requires
            self.wf(),
            s < SPINES,
            k < LEDS_PER_SPINE,
        ensures
            r == self.grid()[s as int][k as int],
    {
        proof {
            assert(self.grid()[s as int] == self.spines@[s as int]@);
        }
        self.spines[s][k]
    }

    /// Write the pixel at row `s`, offset `k`.
    pub fn set(&mut self, s: usize, k: usize, c: [u8; 3])
        requires
            old(self).wf(),
            s < SPINES,
            k < LEDS_PER_SPINE,
        ensures
            final(self).wf(),
            final(self).grid() == old(self).grid().update(
                s as int,
                old(self).grid()[s as int].update(k as int, c),
            ),
    {
        proof {
            assert(old(self).grid()[s as int] == old(self).spines@[s as int]@);
        }
        let row = &mut self.spines[s];
        row[k] = c;
        proof {
            assert(self.grid() =~= old(self).grid().update(
                s as int,
                old(self).grid()[s as int].update(k as int, c),
            ));
        }
    }

    /// Whether every pixel of the frame is currently black.
    pub fn is_all_black(&self) -> (r: bool)
        requires
            self.wf(),
        ensures
            r == all_black(self.grid()),
    {
        let mut s: usize = 0;
        while s < SPINES
            invariant
                self.wf(),
                s <= SPINES,
                forall|i: int, k: int|
                    0 <= i < s && 0 <= k < LEDS_PER_SPINE ==> self.grid()[i][k] == black(),
            decreases SPINES - s,
        {
            let mut k: usize = 0;
            while k < LEDS_PER_SPINE
                invariant
                    self.wf(),
                    s < SPINES,
                    k <= LEDS_PER_SPINE,
                    forall|i: int, j: int|
                        0 <= i < s && 0 <= j < LEDS_PER_SPINE ==> self.grid()[i][j] == black(),
                    forall|j: int| 0 <= j < k ==> self.grid()[s as int][j] == black(),
                decreases LEDS_PER_SPINE - k,
            {
                let px = self.get(s, k);
                if !(px[0] == 0 && px[1] == 0 && px[2] == 0) {
                    proof {
                        assert(self.grid()[s as int][k as int] != black());
                    }
                    return false;
                }
                proof {
                    let p = self.grid()[s as int][k as int];
                    assert(p =~= black());
                }
                k += 1;
            }
            s += 1;
        }
        true
    }

    /// An independent copy of this frame.
    pub fn duplicate(&self) -> (r: LedUpdate)
        requires
            self.wf(),
        ensures
            r.wf(),
            r.grid() == self.grid(),
    {
        let mut spines: Vec<Vec<[u8; 3]>> = Vec::new();
        let mut s: usize = 0;
        while s < SPINES
            invariant
                self.wf(),
                s <= SPINES,
                spines@.len() == s,
                forall|i: int| 0 <= i < s ==> #[trigger] spines@[i]@ == self.grid()[i],
            decreases SPINES - s,
        {
            let mut row: Vec<[u8; 3]> = Vec::new();
            let mut k: usize = 0;
            while k < LEDS_PER_SPINE
                invariant
                    self.wf(),
                    s < SPINES,
                    k <= LEDS_PER_SPINE,
                    row@.len() == k,
                    forall|j: int| 0 <= j < k ==> row@[j] == self.grid()[s as int][j],
                decreases LEDS_PER_SPINE - k,
            {
                row.push(self.get(s, k));
                k += 1;
            }
            proof {
                assert(row@ =~= self.grid()[s as int]);
            }
            spines.push(row);
            s += 1;
        }
        let r = LedUpdate { spines };
        proof {
            assert(r.grid() =~= self.grid());
        }
        r
    }

    /// Shift the pixels of row `s` one step away from the root: afterwards
    /// pixel `k` holds what pixel `k - 1` held, and pixel 0 is unchanged.
    pub fn shift_out(&mut self, s: usize)
        requires
            old(self).wf(),
            s < SPINES,
        ensures
            final(self).wf(),
            final(self).grid().len() == old(self).grid().len(),
            forall|i: int| 0 <= i < SPINES && i != s ==> #[trigger] final(self).grid()[i] == old(
                self,
            ).grid()[i],
            final(self).grid()[s as int].len() == LEDS_PER_SPINE,
            final(self).grid()[s as int][0] == old(self).grid()[s as int][0],
            forall|k: int| 1 <= k < LEDS_PER_SPINE ==> #[trigger] final(self).grid()[s as int][k]
                == old(self).grid()[s as int][k - 1],
    {
        let mut k: usize = LEDS_PER_SPINE - 1;
        while k >= 1
            invariant
                self.wf(),
                s < SPINES,
                0 <= k < LEDS_PER_SPINE,
                forall|i: int| 0 <= i < SPINES && i != s ==> #[trigger] self.grid()[i] == old(
                    self,
                ).grid()[i],
                forall|j: int| 0 <= j <= k ==> #[trigger] self.grid()[s as int][j] == old(
                    self,
                ).grid()[s as int][j],
                forall|j: int| k < j < LEDS_PER_SPINE ==> #[trigger] self.grid()[s as int][j]
                    == old(self).grid()[s as int][j - 1],
            decreases k,
        {
            let c = self.get(s, k - 1);
            self.set(s, k, c);
            k -= 1;
        }
    }

    /// Shift the pixels of row `s` one step toward the root: afterwards
    /// pixel `k` holds what pixel `k + 1` held, and the tip pixel is black.
    pub fn shift_toward_root(&mut self, s: usize)
        requires
            old(self).wf(),
            s < SPINES,
        ensures
            final(self).wf(),
            final(self).grid().len() == old(self).grid().len(),
            forall|i: int| 0 <= i < SPINES && i != s ==> #[trigger] final(self).grid()[i] == old(
                self,
            ).grid()[i],
            final(self).grid()[s as int].len() == LEDS_PER_SPINE,
            forall|k: int| 0 <= k < LEDS_PER_SPINE - 1 ==> #[trigger] final(self).grid()[
                s as int
            ][k] == old(self).grid()[s as int][k + 1],
            final(self).grid()[s as int][LEDS_PER_SPINE - 1] == black(),
    {
        let mut k: usize = 0;
        while k < LEDS_PER_SPINE - 1
            invariant
                self.wf(),
                s < SPINES,
                k <= LEDS_PER_SPINE - 1,
                forall|i: int| 0 <= i < SPINES && i != s ==> #[trigger] self.grid()[i] == old(
                    self,
                ).grid()[i],
                forall|j: int| 0 <= j < k ==> #[trigger] self.grid()[s as int][j] == old(
                    self,
                ).grid()[s as int][j + 1],
                forall|j: int| k <= j < LEDS_PER_SPINE ==> #[trigger] self.grid()[s as int][j]
                    == old(self).grid()[s as int][j],
            decreases LEDS_PER_SPINE - k,
        {
            let c = self.get(s, k + 1);
            self.set(s, k, c);
            k += 1;
        }
        self.set(s, LEDS_PER_SPINE - 1, [0u8, 0u8, 0u8]);
    }

    /// Shift every row one step toward the root, backfilling the tips with
    /// black (the visible "slide toward the centre" of a transition).
    pub fn advect_toward_root(&mut self)
        requires
            old(self).wf(),
        ensures
            final(self).wf(),
            advected(old(self).grid(), final(self).grid()),
    {
        let mut s: usize = 0;
        while s < SPINES
            invariant
                self.wf(),
                old(self).wf(),
                s <= SPINES,
                forall|q: int, k: int|
                    0 <= q < s && 0 <= k < LEDS_PER_SPINE - 1 ==> #[trigger] self.grid()[q][k]
                        == old(self).grid()[q][k + 1],
                forall|q: int|
                    0 <= q < s ==> #[trigger] self.grid()[q][LEDS_PER_SPINE - 1] == black(),
                forall|q: int|
                    s <= q < SPINES ==> #[trigger] self.grid()[q] == old(self).grid()[q],
            decreases SPINES - s,
        {
            self.shift_toward_root(s);
            s += 1;
        }
    }

    /// Paint pixels `from..to` of row `s` with one colour.
    pub fn paint_range(&mut self, s: usize, from: usize, to: usize, c: [u8; 3])
        requires
            old(self).wf(),
            s < SPINES,
            from <= to <= LEDS_PER_SPINE,
        ensures
            final(self).wf(),
            forall|i: int| 0 <= i < SPINES && i != s ==> #[trigger] final(self).grid()[i] == old(
                self,
            ).grid()[i],
            forall|k: int|
                0 <= k < LEDS_PER_SPINE && !(from <= k < to) ==> #[trigger] final(self).grid()[
                    s as int
                ][k] == old(self).grid()[s as int][k],
            forall|k: int|
                from <= k < to ==> #[trigger] final(self).grid()[s as int][k] == c,
    {
        let mut k: usize = from;
        while k < to
            invariant
                self.wf(),
                s < SPINES,
                from <= k <= to <= LEDS_PER_SPINE,
                forall|i: int| 0 <= i < SPINES && i != s ==> #[trigger] self.grid()[i] == old(
                    self,
                ).grid()[i],
                forall|j: int|
                    0 <= j < LEDS_PER_SPINE && !(from <= j < to) ==> #[trigger] self.grid()[
                        s as int
                    ][j] == old(self).grid()[s as int][j],
                forall|j: int| from <= j < k ==> #[trigger] self.grid()[s as int][j] == c,
            decreases to - k,
        {
            self.set(s, k, c);
            k += 1;
        }
    }

    /// Paint every pixel of the frame with one colour.
    pub fn fill(&mut self, c: [u8; 3])
        requires
            old(self).wf(),
        ensures
            final(self).wf(),
            forall|s: int, k: int|
                0 <= s < SPINES && 0 <= k < LEDS_PER_SPINE ==> #[trigger] final(self).grid()[s][k]
                    == c,
    {
        let mut s: usize = 0;
        while s < SPINES
            invariant
                self.wf(),
                s <= SPINES,
                forall|i: int, j: int|
                    0 <= i < s && 0 <= j < LEDS_PER_SPINE ==> #[trigger] self.grid()[i][j] == c,
            decreases SPINES - s,
        {
            let mut k: usize = 0;
            while k < LEDS_PER_SPINE
                invariant
                    self.wf(),
                    s < SPINES,
                    k <= LEDS_PER_SPINE,
                    forall|i: int, j: int|
                        0 <= i < s && 0 <= j < LEDS_PER_SPINE ==> #[trigger] self.grid()[i][j]
                            == c,
                    forall|j: int| 0 <= j < k ==> #[trigger] self.grid()[s as int][j] == c,
                decreases LEDS_PER_SPINE - k,
            {
                self.set(s, k, c);
                k += 1;
            }
            s += 1;
        }
    }
}

impl Default for LedUpdate {
    /// An all-black frame of the fixed shape.
    fn default() -> (r: Self)
        ensures
            r.wf(),
            all_black(r.grid()),
    {
        LedUpdate::new_black()
    }
}

} // verus!

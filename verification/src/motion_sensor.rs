//! Deciding whether the device is moving: a fast (quarter-second) window
//! for shocks and a slow (ten-second) window for creep, the latter cascaded
//! from the fast window's mean to keep sub-second vibration out of the
//! creep signal.

use vstd::prelude::*;

use crate::common_structs::ImuReadings;
use crate::common_structs::IMU_COMP_LIMIT;
use crate::math::div_trunc;
use crate::math::lemma_sq_bound;
use crate::ring_buffer::sum_spec;
use crate::ring_buffer::Blend;
use crate::ring_buffer::CircularBuffer;

verus! {

/// How long after the last detected movement the movement pattern ends, in
/// frames.
pub const MOVEMENT_PATTERN_TIMEOUT: usize = 200;

/// How long after the last detected movement sleep mode begins, in frames.
pub const SLEEP_TIMEOUT: usize = 7200;

/// Length of the fast moving-average window, in frames.
pub const FAST_LPF_LEN: usize = 15;

/// Length of the slow moving-average window, in frames.
pub const SLOW_LPF_LEN: usize = 600;

/// Standard gravity in milli-m/s².
pub const GRAVITY: i64 = 9810;

/// Accelerometer shock threshold in milli-m/s².
pub const ACCEL_SHOCK_THRESH: i64 = 500;

/// Gyro shock threshold: the summed components, in milli-rad/s (the square
/// root of the sum crossing 1 rad/s is the sum crossing this).
pub const GYRO_SHOCK_THRESH: i64 = 1000;

/// Slow movement threshold: the squared distance between smoothed
/// acceleration vectors, in micro-units (1 m/s² squared).
pub const SLOW_MOVEMENT_THRESH_SQ: i64 = 1_000_000;

/// Every sample of a window within the component limit.
pub open spec fn window_in_bounds(s: Seq<ImuReadings>) -> bool {
    forall|i: int| 0 <= i < s.len() ==> (#[trigger] s[i]).in_bounds()
}

/// A window after one push: append until full, then drop the oldest.
pub open spec fn push_window(w: Seq<ImuReadings>, cap: int, v: ImuReadings) -> Seq<ImuReadings> {
    if w.len() < cap {
        w.push(v)
    } else {
        w.subrange(1, cap).push(v)
    }
}

/// The fast-window shock test on a smoothed reading: the acceleration
/// magnitude leaves the band of half a unit around gravity (compared in
/// squares), or the gyro heuristic sum exceeds its threshold.
pub open spec fn fast_shock_spec(m: ImuReadings) -> bool {
    ||| m.accel_mag_sq() > (GRAVITY + ACCEL_SHOCK_THRESH) * (GRAVITY + ACCEL_SHOCK_THRESH)
    ||| m.accel_mag_sq() < (GRAVITY - ACCEL_SHOCK_THRESH) * (GRAVITY - ACCEL_SHOCK_THRESH)
    ||| m.gyro_sum() > GYRO_SHOCK_THRESH
}

/// The slow-window creep test: the smoothed acceleration vector drifted by
/// more than the threshold between the oldest and newest window entries.
pub open spec fn slow_creep_spec(h: ImuReadings, t: ImuReadings) -> bool {
    (h.xa - t.xa) * (h.xa - t.xa) + (h.ya - t.ya) * (h.ya - t.ya) + (h.za - t.za) * (h.za - t.za)
        > SLOW_MOVEMENT_THRESH_SQ
}

/// A per-frame digest of the motion state, for the pattern manager.
#[derive(Clone, Copy, Debug)]
pub struct MotionSummary {
    /// A shock was detected on the frame of the last push.
    pub shock: bool,
    /// Creep was detected on the frame of the last push.
    pub creep: bool,
    /// No movement for long enough to go to sleep.
    pub sleep_timeout: bool,
    /// The smoothed readings, once the fast window is full.
    pub orientation: Option<ImuReadings>,
}

/// The summed components of a bounded window are the exact sums, bounded by
/// the window length times the component limit.
proof fn lemma_sum_bounds(s: Seq<ImuReadings>)
    requires
        window_in_bounds(s),
        s.len() <= 600,
    ensures
        -s.len() * IMU_COMP_LIMIT <= sum_spec(s).xa <= s.len() * IMU_COMP_LIMIT,
        -s.len() * IMU_COMP_LIMIT <= sum_spec(s).ya <= s.len() * IMU_COMP_LIMIT,
        -s.len() * IMU_COMP_LIMIT <= sum_spec(s).za <= s.len() * IMU_COMP_LIMIT,
        -s.len() * IMU_COMP_LIMIT <= sum_spec(s).xg <= s.len() * IMU_COMP_LIMIT,
        -s.len() * IMU_COMP_LIMIT <= sum_spec(s).yg <= s.len() * IMU_COMP_LIMIT,
        -s.len() * IMU_COMP_LIMIT <= sum_spec(s).zg <= s.len() * IMU_COMP_LIMIT,
    decreases s.len(),
{
    if s.len() == 0 {
    } else {
        assert(window_in_bounds(s.drop_last())) by {
            assert(forall|i: int| 0 <= i < s.drop_last().len() ==> s.drop_last()[i] == s[i]);
        }
        lemma_sum_bounds(s.drop_last());
        assert(s.last().in_bounds());
    }
}

/// A full window's mean stays within the component limit.
proof fn lemma_mean_bounds(s: Seq<ImuReadings>, n: int)
    requires
        window_in_bounds(s),
        s.len() <= 600,
        1 <= n,
        s.len() <= n,
    ensures
        sum_spec(s).div_spec(n).in_bounds(),
{
    lemma_sum_bounds(s);
    let l = IMU_COMP_LIMIT as int;
    assert(s.len() * l <= n * l) by (nonlinear_arith)
        requires
            s.len() <= n && l >= 0,
    ;
    lemma_div_trunc_bound(sum_spec(s).xa as int, n, l);
    lemma_div_trunc_bound(sum_spec(s).ya as int, n, l);
    lemma_div_trunc_bound(sum_spec(s).za as int, n, l);
    lemma_div_trunc_bound(sum_spec(s).xg as int, n, l);
    lemma_div_trunc_bound(sum_spec(s).yg as int, n, l);
    lemma_div_trunc_bound(sum_spec(s).zg as int, n, l);
}

/// Truncated division by `n` of a value within `n*l` stays within `l`.
proof fn lemma_div_trunc_bound(x: int, n: int, l: int)
    requires
        1 <= n,
        0 <= l,
        -(n * l) <= x <= n * l,
    ensures
        -l <= div_trunc(x, n) <= l,
{
    if x >= 0 {
        assert(x / n <= l) by (nonlinear_arith)
            requires
                0 <= x <= n * l && n >= 1,
        ;
        assert(x / n >= 0) by (nonlinear_arith)
            requires
                x >= 0 && n >= 1,
        ;
    } else {
        assert((-x) / n <= l) by (nonlinear_arith)
            requires
                0 <= -x <= n * l && n >= 1,
        ;
        assert((-x) / n >= 0) by (nonlinear_arith)
            requires
                -x >= 0 && n >= 1,
        ;
    }
}

/// A window keeps its sample bounds across one buffer write of a bounded
/// value, whether appended or overwriting a slot.
proof fn lemma_push_keeps_bounds(
    r1: Seq<ImuReadings>,
    r2: Seq<ImuReadings>,
    v: ImuReadings,
    p: int,
)
    requires
        window_in_bounds(r1),
        v.in_bounds(),
        r2 == r1.push(v) || (0 <= p < r1.len() && r2 == r1.update(p, v)),
    ensures
        window_in_bounds(r2),
{
    assert forall|i: int| 0 <= i < r2.len() implies (#[trigger] r2[i]).in_bounds() by {
        if r2 == r1.push(v) {
            if i < r1.len() {
                assert(r2[i] == r1[i]);
            } else {
                assert(r2[i] == v);
            }
        } else {
            if i == p {
                assert(r2[i] == v);
            } else {
                assert(r2[i] == r1[i]);
            }
        }
    }
}

/// Sample bounds carry from a window's raw storage to its oldest-first
/// contents.
proof fn lemma_contents_in_bounds(b: &CircularBuffer<ImuReadings>)
    requires
        b.wf(),
        window_in_bounds(b.raw()),
    ensures
        window_in_bounds(b.contents()),
{
    b.lemma_wf_facts();
    b.lemma_contents_cover();
    assert forall|i: int| 0 <= i < b.contents().len() implies (#[trigger] b.contents()[i]).in_bounds() by {
        let p = b.rot();
        let n = b.raw().len() as int;
        if i < n - p {
            assert(b.contents()[i] == b.raw()[p + i]);
        } else {
            assert(b.contents()[i] == b.raw()[i - (n - p)]);
        }
    }
}

/// Algorithms and state for sensing slow and fast movements.
pub struct MotionSensor {
    /// Quarter-second moving average of raw IMU readings.
    fast_lpf_buffer: CircularBuffer<ImuReadings>,
    /// Ten-second window of fast-window means, for detecting creep.
    slow_lpf_buffer: CircularBuffer<ImuReadings>,
    /// Pushes since the last detected movement.
    samples_since_last_movement: usize,
    /// Whether the last push detected a shock.
    last_fast: bool,
    /// Whether the last push detected creep.
    last_slow: bool,
}

impl MotionSensor {
    /// The raw storage of the fast window.
    pub closed spec fn fast_raw(&self) -> Seq<ImuReadings> {
        self.fast_lpf_buffer.raw()
    }

    /// The fast window, oldest first.
    pub closed spec fn fast_window(&self) -> Seq<ImuReadings> {
        self.fast_lpf_buffer.contents()
    }

    /// The slow window, oldest first.
    pub closed spec fn slow_window(&self) -> Seq<ImuReadings> {
        self.slow_lpf_buffer.contents()
    }

    /// Whether the fast window is full.
    pub open spec fn fast_is_full(&self) -> bool {
        self.fast_window().len() == FAST_LPF_LEN
    }

    /// Whether the slow window is full.
    pub open spec fn slow_is_full(&self) -> bool {
        self.slow_window().len() == SLOW_LPF_LEN
    }

    /// The mean the fast window yields when full: the oldest-first sum of
    /// the window divided by its length.
    pub open spec fn fast_mean_v(&self) -> ImuReadings {
        sum_spec(self.fast_window()).div_spec(FAST_LPF_LEN as int)
    }

    /// Pushes since the last detected movement.
    pub closed spec fn counter(&self) -> int {
        self.samples_since_last_movement as int
    }

    /// Whether the last push detected a shock.
    pub closed spec fn shock_flag(&self) -> bool {
        self.last_fast
    }

    /// Whether the last push detected creep.
    pub closed spec fn creep_flag(&self) -> bool {
        self.last_slow
    }

    /// Structural invariant: window shapes and sample bounds.
    pub closed spec fn wf(&self) -> bool {
        &&& self.fast_lpf_buffer.wf()
        &&& self.fast_lpf_buffer.cap() == FAST_LPF_LEN
        &&& window_in_bounds(self.fast_lpf_buffer.raw())
        &&& self.slow_lpf_buffer.wf()
        &&& self.slow_lpf_buffer.cap() == SLOW_LPF_LEN
        &&& window_in_bounds(self.slow_lpf_buffer.raw())
    }

    /// Build a new motion sensor with empty internal windows.
    pub fn new() -> (r: MotionSensor)
        ensures
            r.wf(),
            r.fast_window() == Seq::<ImuReadings>::empty(),
            r.slow_window() == Seq::<ImuReadings>::empty(),
            r.counter() == 0,
            !r.shock_flag(),
            !r.creep_flag(),
    {
        MotionSensor {
            fast_lpf_buffer: CircularBuffer::new(FAST_LPF_LEN),
            slow_lpf_buffer: CircularBuffer::new(SLOW_LPF_LEN),
            samples_since_last_movement: 0,
            last_fast: false,
            last_slow: false,
        }
    }

    /// Whether a fast movement or shock is being experienced: false until
    /// the fast window is full, then the shock test on the window's mean.
    /// On a shock the slow window is cleared, so that stationary periods
    /// right after movement do not read as creep.
    pub fn detect_fast_movement(&mut self) -> (r: bool)
        requires
            old(self).wf(),
        ensures
            final(self).wf(),
            r == (old(self).fast_is_full() && fast_shock_spec(old(self).fast_mean_v())),
            final(self).fast_window() == old(self).fast_window(),
            final(self).fast_raw() == old(self).fast_raw(),
            final(self).slow_window() == if r {
                Seq::<ImuReadings>::empty()
            } else {
                old(self).slow_window()
            },
            final(self).counter() == old(self).counter(),
            final(self).shock_flag() == old(self).shock_flag(),
            final(self).creep_flag() == old(self).creep_flag(),
    {
        let mean = self.fast_lpf_buffer.mean();
        match mean {
            Some(m) => {
                proof {
                    self.fast_lpf_buffer.lemma_wf_facts();
                    lemma_contents_in_bounds(&self.fast_lpf_buffer);
                    lemma_mean_bounds(self.fast_lpf_buffer.contents(), FAST_LPF_LEN as int);
                    lemma_sq_bound(m.xa as int, IMU_COMP_LIMIT as int);
                    lemma_sq_bound(m.ya as int, IMU_COMP_LIMIT as int);
                    lemma_sq_bound(m.za as int, IMU_COMP_LIMIT as int);
                }
                let accel_sq: i64 = m.xa * m.xa + m.ya * m.ya + m.za * m.za;
                let hi = GRAVITY + ACCEL_SHOCK_THRESH;
                let lo = GRAVITY - ACCEL_SHOCK_THRESH;
                let accel_shock = accel_sq > hi * hi || accel_sq < lo * lo;
                let gyro_shock = m.xg + m.yg + m.zg > GYRO_SHOCK_THRESH;
                if accel_shock || gyro_shock {
                    self.slow_lpf_buffer.clear();
                    proof {
                        assert(self.slow_lpf_buffer.contents() =~= Seq::<ImuReadings>::empty());
                    }
                    true
                } else {
                    accel_shock || gyro_shock
                }
            },
            None => false,
        }
    }

    /// Whether the device has crept over the past seconds: false until the
    /// slow window is full, then the drift test between its oldest and
    /// newest smoothed readings.
    pub fn detect_slow_movement(&self) -> (r: bool)
        requires
            self.wf(),
        ensures
            r == (self.slow_is_full() && slow_creep_spec(
                self.slow_window().last(),
                self.slow_window()[0],
            )),
    {
        let head = self.slow_lpf_buffer.head();
        let tail = self.slow_lpf_buffer.tail();
        match (head, tail) {
            (Some(h), Some(t)) => {
                proof {
                    self.slow_lpf_buffer.lemma_wf_facts();
                    self.slow_lpf_buffer.lemma_contents_cover();
                    let c = self.slow_lpf_buffer.contents();
                    assert(h == c.last() && t == c[0]);
                    assert(h.in_bounds() && t.in_bounds());
                    lemma_sq_bound(h.xa - t.xa, 2 * IMU_COMP_LIMIT as int);
                    lemma_sq_bound(h.ya - t.ya, 2 * IMU_COMP_LIMIT as int);
                    lemma_sq_bound(h.za - t.za, 2 * IMU_COMP_LIMIT as int);
                }
                let dx = h.xa - t.xa;
                let dy = h.ya - t.ya;
                let dz = h.za - t.za;
                dx * dx + dy * dy + dz * dz > SLOW_MOVEMENT_THRESH_SQ
            },
            _ => false,
        }
    }

    /// Push a new set of readings: feed the fast window, cascade its mean
    /// into the slow window, and run both detections, resetting the
    /// time-since-movement counter when either fires.
    pub fn push(&mut self, imu: ImuReadings)
        requires
            old(self).wf(),
            imu.in_bounds(),
        ensures
            final(self).wf(),
            final(self).fast_window() == push_window(
                old(self).fast_window(),
                FAST_LPF_LEN as int,
                imu,
            ),
            final(self).shock_flag() == (final(self).fast_is_full() && fast_shock_spec(
                final(self).fast_mean_v(),
            )),
            !final(self).fast_is_full() ==> final(self).slow_window() == old(self).slow_window(),
            final(self).fast_is_full() && !final(self).shock_flag() ==> final(self).slow_window()
                == push_window(
                old(self).slow_window(),
                SLOW_LPF_LEN as int,
                final(self).fast_mean_v(),
            ),
            final(self).shock_flag() ==> final(self).slow_window() == Seq::<ImuReadings>::empty(),
            final(self).creep_flag() == (final(self).slow_is_full() && slow_creep_spec(
                final(self).slow_window().last(),
                final(self).slow_window()[0],
            )),
            final(self).counter() == if final(self).shock_flag() || final(self).creep_flag() {
                0int
            } else if old(self).counter() < usize::MAX {
                old(self).counter() + 1
            } else {
                old(self).counter()
            },
    {
        let ghost fast_raw_pre = self.fast_lpf_buffer.raw();
        let ghost fast_rot_pre = self.fast_lpf_buffer.rot();
        proof {
            self.fast_lpf_buffer.lemma_wf_facts();
        }
        self.fast_lpf_buffer.push(imu);
        proof {
            lemma_push_keeps_bounds(fast_raw_pre, self.fast_lpf_buffer.raw(), imu, fast_rot_pre);
        }
        let mean = self.fast_lpf_buffer.mean();
        if let Some(fast_average) = mean {
            proof {
                self.fast_lpf_buffer.lemma_wf_facts();
                lemma_contents_in_bounds(&self.fast_lpf_buffer);
                lemma_mean_bounds(self.fast_lpf_buffer.contents(), FAST_LPF_LEN as int);
            }
            let ghost slow_raw_pre = self.slow_lpf_buffer.raw();
            let ghost slow_rot_pre = self.slow_lpf_buffer.rot();
            proof {
                self.slow_lpf_buffer.lemma_wf_facts();
            }
            self.slow_lpf_buffer.push(fast_average);
            proof {
                lemma_push_keeps_bounds(
                    slow_raw_pre,
                    self.slow_lpf_buffer.raw(),
                    fast_average,
                    slow_rot_pre,
                );
            }
        }
        if self.samples_since_last_movement < usize::MAX {
            self.samples_since_last_movement = self.samples_since_last_movement + 1;
        }
        let f = self.detect_fast_movement();
        let c = self.detect_slow_movement();
        self.last_fast = f;
        self.last_slow = c;
        if f || c {
            self.samples_since_last_movement = 0;
        }
    }

    /// Has it been long enough since movement that the movement pattern
    /// should end?
    pub fn movement_timeout(&self) -> (r: bool)
        ensures
            r == (self.counter() > MOVEMENT_PATTERN_TIMEOUT),
    {
        self.samples_since_last_movement > MOVEMENT_PATTERN_TIMEOUT
    }

    /// Has it been long enough since movement to go to sleep?
    pub fn sleep_timeout(&self) -> (r: bool)
        ensures
            r == (self.counter() > SLEEP_TIMEOUT),
    {
        self.samples_since_last_movement > SLEEP_TIMEOUT
    }

    /// The smoothed readings from the fast window, once it is full.
    pub fn get_latest(&self) -> (r: Option<ImuReadings>)
        requires
            self.wf(),
        ensures
            r == if self.fast_is_full() {
                Some(self.fast_mean_v())
            } else {
                None::<ImuReadings>
            },
            r is Some ==> r.unwrap().in_bounds(),
    {
        proof {
            if self.fast_is_full() {
                self.fast_lpf_buffer.lemma_wf_facts();
                lemma_contents_in_bounds(&self.fast_lpf_buffer);
                lemma_mean_bounds(self.fast_lpf_buffer.contents(), FAST_LPF_LEN as int);
            }
        }
        self.fast_lpf_buffer.mean()
    }

    /// The per-frame digest the pattern manager consumes.
    pub fn summary(&self) -> (r: MotionSummary)
        requires
            self.wf(),
        ensures
            r.shock == self.shock_flag(),
            r.creep == self.creep_flag(),
            r.sleep_timeout == (self.counter() > SLEEP_TIMEOUT),
            r.orientation == if self.fast_is_full() {
                Some(self.fast_mean_v())
            } else {
                None::<ImuReadings>
            },
            r.orientation is Some ==> r.orientation.unwrap().in_bounds(),
    {
        MotionSummary {
            shock: self.last_fast,
            creep: self.last_slow,
            sleep_timeout: self.sleep_timeout(),
            orientation: self.get_latest(),
        }
    }
}

} // verus!

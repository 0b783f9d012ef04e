//! The pattern manager: a state machine that decides which pattern plays,
//! switches patterns on motion and inactivity, and cross-fades between
//! them by sliding the last frame toward the centre.
//!
//! State changes are deferred by one frame: the frame returned by a call
//! belongs to the outgoing state, so a decided change is recorded and
//! applied at the start of the next call.

use vstd::prelude::*;

use crate::common_structs::GpsFix;
use crate::common_structs::ImuReadings;
use crate::frame::advected;
use crate::frame::all_black;
use crate::frame::LedUpdate;
use crate::motion_sensor::MotionSummary;
use crate::patterns::beans::bean_sim::stacked_spec;
use crate::patterns::beans::pattern::Beans;
use crate::patterns::beans::pattern::NUM_TUBES;
use crate::patterns::ActivePattern;
use crate::patterns::PatternName;
use crate::rng::random_in_range;
use crate::SPINES;

verus! {

/// Frames a transition cross-fade lasts before the next state is chosen.
pub const TRANSITION_FRAMES: usize = 60;

/// Consecutive all-stacked frames after which the beans pattern ends.
pub const STACKED_FRAMES_LIMIT: usize = 199;

/// Frames the jukebox dwells on one pattern.
pub const JUKEBOX_DWELL: usize = 3600;

/// Counters freeze here; far beyond every trigger threshold, the cap only
/// keeps the arithmetic in range.
pub const COUNTER_CAP: usize = 10000;

/// The manager's state machine position.
pub enum PmState {
    /// A pattern chosen by orientation is running.
    Stationary(ActivePattern),
    /// The beans pattern is running; the counter holds consecutive frames
    /// in which every tube was stacked.
    Movement(Beans, usize),
    /// No owning pattern; the previously displayed frame slides toward the
    /// centre.  The counter holds frames since the transition began.
    Transition(LedUpdate, usize),
    /// A single fixed pattern selected at startup; never transitions.
    StaticPattern(ActivePattern),
    /// Cycling through the playlist on a fixed dwell, ignoring motion.
    Jukebox(ActivePattern, usize),
    /// Cross-fade between jukebox patterns.
    JukeboxTransition(LedUpdate, usize),
}

/// How the manager starts, from configuration.
pub enum StartMode {
    /// The motion-reactive state machine.
    Reactive,
    /// One fixed pattern, forever.
    Fixed(PatternName),
    /// The jukebox.
    Jukebox,
}

/// A state's internal invariant.
pub open spec fn state_wf(s: PmState) -> bool {
    match s {
        PmState::Stationary(p) => p.wf(),
        PmState::Movement(b, k) => b.wf() && k <= COUNTER_CAP,
        PmState::Transition(f, t) => f.wf() && t <= COUNTER_CAP,
        PmState::StaticPattern(p) => p.wf(),
        PmState::Jukebox(p, n) => p.wf() && n <= COUNTER_CAP,
        PmState::JukeboxTransition(f, t) => f.wf() && t <= COUNTER_CAP,
    }
}

/// The frame a state currently displays.
pub open spec fn frame_of(s: PmState) -> Seq<Seq<[u8; 3]>> {
    match s {
        PmState::Stationary(p) => p.frame(),
        PmState::Movement(b, _) => b.frame(),
        PmState::Transition(f, _) => f.grid(),
        PmState::StaticPattern(p) => p.frame(),
        PmState::Jukebox(p, _) => p.frame(),
        PmState::JukeboxTransition(f, _) => f.grid(),
    }
}

/// A counter stepped by one, frozen at the cap.
pub open spec fn bump(n: int) -> int {
    if n < COUNTER_CAP {
        n + 1
    } else {
        n
    }
}

/// The orientation-to-pattern map: the signs of the smoothed accelerometer
/// axes pick the stationary pattern (a nonnegative axis counts as
/// positive).
pub open spec fn orientation_name(m: ImuReadings) -> PatternName {
    if m.xa < 0 {
        if m.ya < 0 {
            if m.za < 0 {
                PatternName::Zoom
            } else {
                PatternName::Starfield
            }
        } else {
            if m.za < 0 {
                PatternName::Colourfield
            } else {
                PatternName::Glitch
            }
        }
    } else {
        if m.ya < 0 {
            if m.za < 0 {
                PatternName::ColourWipes
            } else {
                PatternName::Wormholes
            }
        } else {
            if m.za < 0 {
                PatternName::Sparkles
            } else {
                PatternName::ColourWipes
            }
        }
    }
}

/// Pick the stationary pattern for a smoothed reading.
pub fn select_by_orientation(m: &ImuReadings) -> (r: PatternName)
    ensures
        r == orientation_name(*m),
{
    if m.xa < 0 {
        if m.ya < 0 {
            if m.za < 0 {
                PatternName::Zoom
            } else {
                PatternName::Starfield
            }
        } else {
            if m.za < 0 {
                PatternName::Colourfield
            } else {
                PatternName::Glitch
            }
        }
    } else {
        if m.ya < 0 {
            if m.za < 0 {
                PatternName::ColourWipes
            } else {
                PatternName::Wormholes
            }
        } else {
            if m.za < 0 {
                PatternName::Sparkles
            } else {
                PatternName::ColourWipes
            }
        }
    }
}

/// The jukebox playlist: every registry pattern except beans and the test
/// patterns.
pub open spec fn playlist_spec(i: int) -> PatternName {
    if i == 0 {
        PatternName::Zoom
    } else if i == 1 {
        PatternName::Starfield
    } else if i == 2 {
        PatternName::Colourfield
    } else if i == 3 {
        PatternName::ColourWipes
    } else if i == 4 {
        PatternName::Glitch
    } else if i == 5 {
        PatternName::Sparkles
    } else if i == 6 {
        PatternName::Wormholes
    } else {
        PatternName::Sleep
    }
}

/// The playlist entry at an index.
fn playlist(i: usize) -> (r: PatternName)
    requires
        i < 8,
    ensures
        r == playlist_spec(i as int),
{
    match i {
        0 => PatternName::Zoom,
        1 => PatternName::Starfield,
        2 => PatternName::Colourfield,
        3 => PatternName::ColourWipes,
        4 => PatternName::Glitch,
        5 => PatternName::Sparkles,
        6 => PatternName::Wormholes,
        _ => PatternName::Sleep,
    }
}

/// Every tube of the beans pattern stacked at one end.
pub open spec fn beans_stacked(b: Beans) -> bool {
    forall|t: int| 0 <= t < NUM_TUBES ==> stacked_spec(b.tube(t))
}

/// The orientation reading used for selection: the smoothed reading if the
/// fast window was full, all-zero axes otherwise.
pub open spec fn orientation_or_rest(m: MotionSummary) -> ImuReadings {
    match m.orientation {
        Some(v) => v,
        None => ImuReadings { xa: 0, ya: 0, za: 0, xg: 0, yg: 0, zg: 0 },
    }
}

/// The one-frame transition relation of the state machine, as evaluated on
/// the effective state `cur` (the deferred state if one was pending):
/// `post` is the state after the call, `sched` the change recorded for the
/// next call, `requested` the remote pattern setpoint, and `drawn` the
/// frame the call returned.  The setpoint acts only in the jukebox, where a
/// change of name ends the current dwell early; the pattern that follows a
/// jukebox cross-fade is still drawn from the playlist.
pub open spec fn step_rel(
    cur: PmState,
    post: PmState,
    sched: Option<PmState>,
    motion: MotionSummary,
    requested: Option<PatternName>,
    drawn: Seq<Seq<[u8; 3]>>,
) -> bool {
    match cur {
        PmState::Stationary(p) => {
            &&& post matches PmState::Stationary(q) && q.name_spec() == p.name_spec()
            &&& if motion.shock || motion.creep || (p.name_spec() != PatternName::Sleep
                && motion.sleep_timeout) {
                sched matches Some(PmState::Transition(f, t)) && t == 0 && f.grid() == drawn
            } else {
                sched is None
            }
        },
        PmState::Movement(_, k) => {
            &&& post matches PmState::Movement(b2, k2) && k2 == if beans_stacked(b2) {
                bump(k as int)
            } else {
                0int
            } && (if k2 >= STACKED_FRAMES_LIMIT {
                sched matches Some(PmState::Transition(f, t)) && t == 0 && f.grid() == drawn
            } else {
                sched is None
            })
        },
        PmState::Transition(f, t) => {
            &&& post matches PmState::Transition(f2, t2) && t2 == bump(t as int) && advected(
                f.grid(),
                f2.grid(),
            )
            &&& if t == TRANSITION_FRAMES {
                if motion.sleep_timeout {
                    sched matches Some(PmState::Stationary(q)) && q.name_spec()
                        == PatternName::Sleep
                } else if motion.shock || motion.creep {
                    sched matches Some(PmState::Movement(b, k)) && k == 0 && b.timer() == 0
                } else {
                    sched matches Some(PmState::Stationary(q)) && q.name_spec()
                        == orientation_name(orientation_or_rest(motion))
                }
            } else {
                sched is None
            }
        },
        PmState::StaticPattern(p) => {
            &&& post matches PmState::StaticPattern(q) && q.name_spec() == p.name_spec()
            &&& sched is None
        },
        PmState::Jukebox(p, n) => {
            &&& post matches PmState::Jukebox(q, n2) && q.name_spec() == p.name_spec() && n2
                == bump(n as int) && (if n2 > JUKEBOX_DWELL || (requested matches Some(want)
                && want != p.name_spec()) {
                sched matches Some(PmState::JukeboxTransition(f, t)) && t == 0 && f.grid() == drawn
            } else {
                sched is None
            })
        },
        PmState::JukeboxTransition(f, t) => {
            &&& post matches PmState::JukeboxTransition(f2, t2) && t2 == bump(t as int)
                && advected(f.grid(), f2.grid())
            &&& if t == TRANSITION_FRAMES {
                sched matches Some(PmState::Jukebox(q, n)) && n == 0 && (exists|i: int|
                    0 <= i < 8 && q.name_spec() == playlist_spec(i))
            } else {
                sched is None
            }
        },
    }
}

/// Decides which pattern plays and cross-fades between patterns.
pub struct PatternManager {
    /// The current state machine position.
    state: PmState,
    /// A state change decided this frame, applied at the next.
    next_state: Option<PmState>,
}

impl PatternManager {
    /// The current state.
    pub closed spec fn state_v(&self) -> PmState {
        self.state
    }

    /// The pending deferred state, if any.
    pub closed spec fn next_v(&self) -> Option<PmState> {
        self.next_state
    }

    /// The state this manager will act on at the next call.
    pub open spec fn effective(&self) -> PmState {
        match self.next_v() {
            Some(ns) => ns,
            None => self.state_v(),
        }
    }

    /// Structural invariant.
    pub open spec fn wf(&self) -> bool {
        &&& state_wf(self.state_v())
        &&& (self.next_v() matches Some(ns) ==> state_wf(ns))
    }

    /// Make a new pattern manager in the configured starting state: a
    /// transition out of a black frame for the reactive machine, a fixed
    /// pattern, or the jukebox.
    pub fn new(mode: StartMode) -> (r: PatternManager)
        ensures
            r.wf(),
            r.next_v() is None,
            match mode {
                StartMode::Reactive => r.state_v() matches PmState::Transition(f, t) && t == 0
                    && all_black(f.grid()),
                StartMode::Fixed(n) => r.state_v() matches PmState::StaticPattern(q)
                    && q.name_spec() == n,
                StartMode::Jukebox => r.state_v() matches PmState::Jukebox(q, n) && n == 0
                    && q.name_spec() == PatternName::ColourWipes,
            },
    {
        let state = match mode {
            StartMode::Reactive => PmState::Transition(LedUpdate::new_black(), 0),
            StartMode::Fixed(n) => PmState::StaticPattern(ActivePattern::by_name(n)),
            StartMode::Jukebox => PmState::Jukebox(
                ActivePattern::by_name(PatternName::ColourWipes),
                0,
            ),
        };
        PatternManager { state, next_state: None }
    }

    /// Apply any deferred state change, run one frame of whichever state is
    /// current, record the next state change the triggers demand, and
    /// return the rendered frame.  `requested` is the remote pattern
    /// setpoint, read once per frame.
    pub fn step(
        &mut self,
        gps: &Option<GpsFix>,
        imu: &ImuReadings,
        motion: &MotionSummary,
        requested: Option<PatternName>,
    ) -> (r: &LedUpdate)
        requires
            old(self).wf(),
            imu.in_bounds(),
        ensures
            final(self).wf(),
            r.grid() == frame_of(final(self).state_v()),
            r.wf(),
            step_rel(
                old(self).effective(),
                final(self).state_v(),
                final(self).next_v(),
                *motion,
                requested,
                r.grid(),
            ),
    {
        if let Some(ns) = self.next_state.take() {
            self.state = ns;
        }
        let mut sched: Option<PmState> = None;
        match &mut self.state {
            PmState::Stationary(p) => {
                let _ = p.step(gps, imu);
                let trigger = motion.shock || motion.creep || (!p.is_sleep()
                    && motion.sleep_timeout);
                if trigger {
                    sched = Some(PmState::Transition(p.frame_ref().duplicate(), 0));
                }
            },
            PmState::Movement(b, k) => {
                let _ = b.step(gps, imu);
                let k2 = if b.all_stacked() {
                    if *k < COUNTER_CAP {
                        *k + 1
                    } else {
                        *k
                    }
                } else {
                    0
                };
                *k = k2;
                if k2 >= STACKED_FRAMES_LIMIT {
                    sched = Some(PmState::Transition(b.frame_ref().duplicate(), 0));
                }
            },
            PmState::Transition(f, t) => {
                f.advect_toward_root();
                if *t == TRANSITION_FRAMES {
                    if motion.sleep_timeout {
                        sched = Some(
                            PmState::Stationary(ActivePattern::by_name(PatternName::Sleep)),
                        );
                    } else if motion.shock || motion.creep {
                        sched = Some(PmState::Movement(Beans::new_direct(), 0));
                    } else {
                        let m = match motion.orientation {
                            Some(v) => v,
                            None => ImuReadings::default(),
                        };
                        sched = Some(
                            PmState::Stationary(ActivePattern::by_name(select_by_orientation(&m))),
                        );
                    }
                }
                *t = if *t < COUNTER_CAP {
                    *t + 1
                } else {
                    *t
                };
            },
            PmState::StaticPattern(p) => {
                let _ = p.step(gps, imu);
            },
            PmState::Jukebox(p, n) => {
                let _ = p.step(gps, imu);
                let n2 = if *n < COUNTER_CAP {
                    *n + 1
                } else {
                    *n
                };
                *n = n2;
                let switch_away = match requested {
                    Some(want) => want != p.get_name_enum(),
                    None => false,
                };
                if n2 > JUKEBOX_DWELL || switch_away {
                    sched = Some(PmState::JukeboxTransition(p.frame_ref().duplicate(), 0));
                }
            },
            PmState::JukeboxTransition(f, t) => {
                f.advect_toward_root();
                if *t == TRANSITION_FRAMES {
                    let pick = random_in_range(0, 7) as usize;
                    sched = Some(PmState::Jukebox(ActivePattern::by_name(playlist(pick)), 0));
                }
                *t = if *t < COUNTER_CAP {
                    *t + 1
                } else {
                    *t
                };
            },
        }
        self.next_state = sched;
        match &self.state {
            PmState::Stationary(p) => p.frame_ref(),
            PmState::Movement(b, _) => b.frame_ref(),
            PmState::Transition(f, _) => f,
            PmState::StaticPattern(p) => p.frame_ref(),
            PmState::Jukebox(p, _) => p.frame_ref(),
            PmState::JukeboxTransition(f, _) => f,
        }
    }
}

impl PatternManager {
    /// The name of the pattern the current state is playing, or `None` in
    /// a transition.
    pub fn active_name(&self) -> (r: Option<PatternName>)
        ensures
            r == match self.state_v() {
                PmState::Stationary(p) => Some(p.name_spec()),
                PmState::Movement(_, _) => Some(PatternName::Beans),
                PmState::Transition(_, _) => None::<PatternName>,
                PmState::StaticPattern(p) => Some(p.name_spec()),
                PmState::Jukebox(p, _) => Some(p.name_spec()),
                PmState::JukeboxTransition(_, _) => None::<PatternName>,
            },
    {
        match &self.state {
            PmState::Stationary(p) => Some(p.get_name_enum()),
            PmState::Movement(_, _) => Some(PatternName::Beans),
            PmState::Transition(_, _) => None,
            PmState::StaticPattern(p) => Some(p.get_name_enum()),
            PmState::Jukebox(p, _) => Some(p.get_name_enum()),
            PmState::JukeboxTransition(_, _) => None,
        }
    }
}

impl Default for PatternManager {
    /// The reactive machine, transitioning out of a black frame.
    fn default() -> (r: Self)
        ensures
            r.wf(),
            r.next_v() is None,
            r.state_v() matches PmState::Transition(f, t) && t == 0 && all_black(f.grid()),
    {
        PatternManager { state: PmState::Transition(LedUpdate::new_black(), 0), next_state: None }
    }
}

} // verus!

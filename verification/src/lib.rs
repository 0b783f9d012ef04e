//! Isopod: a verified rendering core for a kinetic LED sculpture.
//!
//! Twelve addressable LED strips ("spines") radiate from the centre of an
//! icosahedral body.  This library holds the real-time rendering pipeline:
//! motion classification over IMU samples, the pattern state machine, the
//! individual animation patterns (including the bean-physics simulation),
//! and the power-aware LED output stage.  Hardware access, networking and
//! configuration live outside the library and exchange plain values with it.

use vstd::prelude::*;

pub mod common_structs;
pub mod controls;
pub mod frame;
pub mod hsv;
pub mod led;
pub mod math;
pub mod motion_sensor;
pub mod pattern_manager;
pub mod patterns;
pub mod ring_buffer;
pub mod rng;

verus! {

/// Number of LED spines on the device.
pub const SPINES: usize = 12;

/// Pattern-facing number of LEDs on each spine.
pub const LEDS_PER_SPINE: usize = 59;

} // verus!

//! Sensor snapshot types exchanged with the hardware adapters.
//!
//! All quantities are fixed-point integers: accelerations in milli-m/s²,
//! rotation rates in milli-rad/s, coordinates in micro-degrees, altitudes in
//! millimetres, voltages in millivolts, currents in milliamps.  The adapters
//! convert at the boundary and clamp to the documented component limit.

use vstd::prelude::*;

use crate::math::isqrt64;
use crate::math::sq;
use crate::patterns::geometry::IVec3;
use crate::math::div_trunc;
use crate::math::div_trunc64;
use crate::math::sat_add64;
use crate::math::sat_add_spec;
use crate::ring_buffer::Blend;

verus! {

/// Largest component magnitude a sensor sample may carry (milli-units);
/// far beyond any physical IMU range, it keeps squares and window sums
/// representable.
pub const IMU_COMP_LIMIT: i64 = 10_000_000;

/// The sensor data captured from the IMU at a given instant.
#[derive(Clone, Copy, Debug, PartialEq, Eq, Structural)]
pub struct ImuReadings {
    /// Accelerometer X-axis reading in milli-m/s².
    pub xa: i64,
    /// Accelerometer Y-axis reading in milli-m/s².
    pub ya: i64,
    /// Accelerometer Z-axis reading in milli-m/s².
    pub za: i64,
    /// Gyroscope X-axis reading in milli-rad/s.
    pub xg: i64,
    /// Gyroscope Y-axis reading in milli-rad/s.
    pub yg: i64,
    /// Gyroscope Z-axis reading in milli-rad/s.
    pub zg: i64,
}

impl ImuReadings {
    /// Every component within the documented sample limit.
    pub open spec fn in_bounds(self) -> bool {
        &&& -IMU_COMP_LIMIT <= self.xa <= IMU_COMP_LIMIT
        &&& -IMU_COMP_LIMIT <= self.ya <= IMU_COMP_LIMIT
        &&& -IMU_COMP_LIMIT <= self.za <= IMU_COMP_LIMIT
        &&& -IMU_COMP_LIMIT <= self.xg <= IMU_COMP_LIMIT
        &&& -IMU_COMP_LIMIT <= self.yg <= IMU_COMP_LIMIT
        &&& -IMU_COMP_LIMIT <= self.zg <= IMU_COMP_LIMIT
    }

    /// Squared magnitude of the acceleration, in micro-units.
    pub open spec fn accel_mag_sq(self) -> int {
        self.xa * self.xa + self.ya * self.ya + self.za * self.za
    }

    /// The summed gyroscope components (the inherited shock heuristic works
    /// on this sum, not on a geometric norm).
    pub open spec fn gyro_sum(self) -> int {
        self.xg + self.yg + self.zg
    }

    /// Magnitude of the total acceleration in milli-m/s²: the floor square
    /// root of the squared magnitude.
    pub fn accel_magnitude(&self) -> (r: i64)
        requires
            self.in_bounds(),
        ensures
            0 <= r,
            sq(r as int) <= self.accel_mag_sq(),
            self.accel_mag_sq() < sq(r as int + 1),
    {
        proof {
            let l = IMU_COMP_LIMIT as int;
            crate::math::lemma_sq_bound(self.xa as int, l);
            crate::math::lemma_sq_bound(self.ya as int, l);
            crate::math::lemma_sq_bound(self.za as int, l);
        }
        let s: i64 = self.xa * self.xa + self.ya * self.ya + self.za * self.za;
        let r = isqrt64(s as u64);
        proof {
            assert(sq(r as int) <= s as int);
            assert(r as int <= r as int * r as int || r == 0) by (nonlinear_arith);
        }
        r as i64
    }

    /// The acceleration as a geometry vector (milli-units).
    pub fn accel_vector(&self) -> (r: IVec3)
        ensures
            r == (IVec3 { x: self.xa, y: self.ya, z: self.za }),
    {
        IVec3 { x: self.xa, y: self.ya, z: self.za }
    }

    /// Total magnitude of rotation in milli-rad/s: the floor square root of
    /// the summed components scaled to milli-units.  The sum of signed
    /// components is an inherited heuristic, not a geometric norm; a
    /// non-positive sum (whose real square root is not a number) yields 0.
    pub fn gyro_magnitude(&self) -> (r: i64)
        requires
            self.in_bounds(),
        ensures
            self.gyro_sum() <= 0 ==> r == 0,
            self.gyro_sum() > 0 ==> 0 <= r && sq(r as int) <= self.gyro_sum() * 1000 && self.gyro_sum() * 1000 < sq(r as int + 1),
    {
        let s: i64 = self.xg + self.yg + self.zg;
        if s <= 0 {
            0
        } else {
            let r = isqrt64((s * 1000) as u64);
            proof {
                assert(sq(r as int) <= s as int * 1000);
                assert(r as int <= r as int * r as int || r == 0) by (nonlinear_arith);
            }
            r as i64
        }
    }
}

impl Default for ImuReadings {
    /// All-zero readings.
    fn default() -> (r: Self)
        ensures
            r == (ImuReadings { xa: 0, ya: 0, za: 0, xg: 0, yg: 0, zg: 0 }),
    {
        ImuReadings { xa: 0, ya: 0, za: 0, xg: 0, yg: 0, zg: 0 }
    }
}

impl Blend for ImuReadings {
    open spec fn add_spec(self, other: ImuReadings) -> ImuReadings {
        ImuReadings {
            xa: sat_add_spec(self.xa as int, other.xa as int) as i64,
            ya: sat_add_spec(self.ya as int, other.ya as int) as i64,
            za: sat_add_spec(self.za as int, other.za as int) as i64,
            xg: sat_add_spec(self.xg as int, other.xg as int) as i64,
            yg: sat_add_spec(self.yg as int, other.yg as int) as i64,
            zg: sat_add_spec(self.zg as int, other.zg as int) as i64,
        }
    }

    open spec fn div_spec(self, n: int) -> ImuReadings {
        ImuReadings {
            xa: div_trunc(self.xa as int, n) as i64,
            ya: div_trunc(self.ya as int, n) as i64,
            za: div_trunc(self.za as int, n) as i64,
            xg: div_trunc(self.xg as int, n) as i64,
            yg: div_trunc(self.yg as int, n) as i64,
            zg: div_trunc(self.zg as int, n) as i64,
        }
    }

    open spec fn zero_spec() -> ImuReadings {
        ImuReadings { xa: 0, ya: 0, za: 0, xg: 0, yg: 0, zg: 0 }
    }

    fn blend_add(self, other: ImuReadings) -> (r: ImuReadings) {
        ImuReadings {
            xa: sat_add64(self.xa, other.xa),
            ya: sat_add64(self.ya, other.ya),
            za: sat_add64(self.za, other.za),
            xg: sat_add64(self.xg, other.xg),
            yg: sat_add64(self.yg, other.yg),
            zg: sat_add64(self.zg, other.zg),
        }
    }

    fn blend_div(self, n: usize) -> (r: ImuReadings) {
        ImuReadings {
            xa: div_trunc64(self.xa, n),
            ya: div_trunc64(self.ya, n),
            za: div_trunc64(self.za, n),
            xg: div_trunc64(self.xg, n),
            yg: div_trunc64(self.yg, n),
            zg: div_trunc64(self.zg, n),
        }
    }

    fn blend_zero() -> (r: ImuReadings) {
        ImuReadings { xa: 0, ya: 0, za: 0, xg: 0, yg: 0, zg: 0 }
    }
}

/// The data captured in a momentary GPS fix.
#[derive(Clone, Copy, Debug, PartialEq, Eq, Structural)]
pub struct GpsFix {
    /// Longitude of the fix location in signed micro-degrees.
    pub longitude: i64,
    /// Latitude of the fix location in signed micro-degrees.
    pub latitude: i64,
    /// Altitude of the fix location in millimetres.
    pub altitude: i64,
    /// The number of satellites in view at the time of the fix.
    pub satellites: usize,
    /// The time of the fix, in UTC seconds since the Unix epoch.
    pub time: i64,
}

impl GpsFix {
    /// Assemble a fix from the optional fields a position sentence may
    /// carry.  A fix exists exactly when every field is present and at
    /// least one satellite is in view.
    pub fn from_parts(
        time: Option<i64>,
        longitude: Option<i64>,
        latitude: Option<i64>,
        altitude: Option<i64>,
        satellites: usize,
    ) -> (r: Option<GpsFix>)
        ensures
            r == if time.is_some() && longitude.is_some() && latitude.is_some()
                && altitude.is_some() && satellites > 0 {
                Some(
                    GpsFix {
                        longitude: longitude.unwrap(),
                        latitude: latitude.unwrap(),
                        altitude: altitude.unwrap(),
                        satellites,
                        time: time.unwrap(),
                    },
                )
            } else {
                None::<GpsFix>
            },
    {
        match (time, longitude, latitude, altitude) {
            (Some(t), Some(lon), Some(lat), Some(alt)) => {
                if satellites > 0 {
                    Some(GpsFix { longitude: lon, latitude: lat, altitude: alt, satellites, time: t })
                } else {
                    None
                }
            },
            _ => None,
        }
    }
}

impl Default for GpsFix {
    /// Null island at the epoch, with no satellites.
    fn default() -> (r: Self)
        ensures
            r == (GpsFix { longitude: 0, latitude: 0, altitude: 0, satellites: 0, time: 0 }),
    {
        GpsFix { longitude: 0, latitude: 0, altitude: 0, satellites: 0, time: 0 }
    }
}

/// A battery fuel-gauge snapshot.
#[derive(Clone, Copy, Debug, PartialEq, Eq, Structural)]
pub struct BatteryReadings {
    /// Pack voltage in millivolts.
    pub voltage: i64,
    /// Pack current in milliamps; negative is discharging.
    pub current: i64,
    /// Estimated state-of-charge in tenths of a percent.
    pub soc: i64,
}

impl Default for BatteryReadings {
    /// All-zero readings.
    fn default() -> (r: Self)
        ensures
            r == (BatteryReadings { voltage: 0, current: 0, soc: 0 }),
    {
        BatteryReadings { voltage: 0, current: 0, soc: 0 }
    }
}

} // verus!

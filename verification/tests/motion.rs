//! Tests for the motion sensor and the orientation selection.

use isopod::common_structs::GpsFix;
use isopod::common_structs::ImuReadings;
use isopod::motion_sensor::MotionSensor;
use isopod::pattern_manager::select_by_orientation;
use isopod::patterns::geometry::dot;
use isopod::patterns::geometry::is_antiparallel;
use isopod::patterns::geometry::spine_direction;
use isopod::patterns::geometry::IVec3;
use isopod::patterns::PatternName;

fn accel(xa: i64, ya: i64, za: i64) -> ImuReadings {
    ImuReadings { xa, ya, za, xg: 0, yg: 0, zg: 0 }
}

#[test]
fn detections_are_false_until_windows_fill() {
    let mut sensor = MotionSensor::new();
    assert!(!sensor.detect_fast_movement());
    assert!(!sensor.detect_slow_movement());
    // Fourteen wild samples are still not a full fast window.
    for _ in 0..14 {
        sensor.push(accel(0, 0, 50_000));
    }
    assert!(!sensor.detect_fast_movement());
    assert!(!sensor.detect_slow_movement());
}

#[test]
fn resting_device_detects_nothing() {
    let mut sensor = MotionSensor::new();
    for _ in 0..100 {
        sensor.push(accel(0, 0, 9810));
    }
    let s = sensor.summary();
    assert!(!s.shock);
    assert!(!s.creep);
    assert_eq!(s.orientation, Some(accel(0, 0, 9810)));
}

#[test]
fn shock_detected_after_acceleration_jump() {
    let mut sensor = MotionSensor::new();
    for _ in 0..15 {
        sensor.push(accel(0, 0, 9810));
    }
    assert!(!sensor.summary().shock);
    // One sample at twice gravity pulls the smoothed magnitude out of the
    // half-unit band around gravity.
    sensor.push(accel(0, 0, 20_000));
    assert!(sensor.summary().shock);
    // The shock resets the time-since-movement counter.
    assert!(!sensor.movement_timeout());
}

#[test]
fn gyro_shock_uses_the_summed_components() {
    let mut sensor = MotionSensor::new();
    for _ in 0..15 {
        sensor.push(ImuReadings { xa: 0, ya: 0, za: 9810, xg: 900, yg: 300, zg: 0 });
    }
    // The summed smoothed components exceed the threshold even though no
    // single axis does.
    assert!(sensor.summary().shock);
}

#[test]
fn sleep_timeout_after_long_stillness() {
    let mut sensor = MotionSensor::new();
    for _ in 0..7201 {
        sensor.push(accel(0, 0, 9810));
    }
    assert!(sensor.sleep_timeout());
    assert!(sensor.movement_timeout());
}

#[test]
fn orientation_signs_select_patterns() {
    assert_eq!(select_by_orientation(&accel(-1000, -1000, -1000)), PatternName::Zoom);
    assert_eq!(select_by_orientation(&accel(-1000, -1000, 1000)), PatternName::Starfield);
    assert_eq!(select_by_orientation(&accel(-1000, 1000, -1000)), PatternName::Colourfield);
    assert_eq!(select_by_orientation(&accel(-1000, 1000, 1000)), PatternName::Glitch);
    assert_eq!(select_by_orientation(&accel(1000, -1000, -1000)), PatternName::ColourWipes);
    assert_eq!(select_by_orientation(&accel(1000, -1000, 1000)), PatternName::Wormholes);
    assert_eq!(select_by_orientation(&accel(1000, 1000, -1000)), PatternName::Sparkles);
    assert_eq!(select_by_orientation(&accel(1000, 1000, 1000)), PatternName::ColourWipes);
}

#[test]
fn smoothed_orientation_matches_samples() {
    let mut sensor = MotionSensor::new();
    for _ in 0..15 {
        sensor.push(accel(-1000, -1000, 1000));
    }
    let m = sensor.get_latest().unwrap();
    assert_eq!(select_by_orientation(&m), PatternName::Starfield);
    let mut sensor = MotionSensor::new();
    for _ in 0..15 {
        sensor.push(accel(1000, 1000, -1000));
    }
    let m = sensor.get_latest().unwrap();
    assert_eq!(select_by_orientation(&m), PatternName::Sparkles);
}

#[test]
fn gps_fix_needs_every_field() {
    let full = GpsFix::from_parts(Some(1000), Some(1_500_000), Some(52_000_000), Some(12_000), 7);
    assert_eq!(
        full,
        Some(GpsFix {
            longitude: 1_500_000,
            latitude: 52_000_000,
            altitude: 12_000,
            satellites: 7,
            time: 1000,
        })
    );
    assert_eq!(GpsFix::from_parts(None, Some(1), Some(2), Some(3), 7), None);
    assert_eq!(GpsFix::from_parts(Some(1), None, Some(2), Some(3), 7), None);
    assert_eq!(GpsFix::from_parts(Some(1), Some(2), None, Some(3), 7), None);
    assert_eq!(GpsFix::from_parts(Some(1), Some(2), Some(3), None, 7), None);
    assert_eq!(GpsFix::from_parts(Some(1), Some(2), Some(3), Some(4), 0), None);
    assert_eq!(GpsFix::default().satellites, 0);
}

#[test]
fn magnitudes_are_floor_square_roots() {
    // A 3-4-0 acceleration triangle has magnitude exactly 5.
    let m = ImuReadings { xa: 3000, ya: 4000, za: 0, xg: 0, yg: 0, zg: 0 };
    assert_eq!(m.accel_magnitude(), 5000);
    // The gyro heuristic takes the root of the summed components; a sum of
    // four units comes out as two.
    let g = ImuReadings { xa: 0, ya: 0, za: 0, xg: 1000, yg: 1000, zg: 2000 };
    assert_eq!(g.gyro_magnitude(), 2000);
    // A negative sum (meaningless under the root) reads as zero.
    let n = ImuReadings { xa: 0, ya: 0, za: 0, xg: -5000, yg: 1000, zg: 0 };
    assert_eq!(n.gyro_magnitude(), 0);
}

#[test]
fn geometry_dot_and_direction_sign() {
    let x = IVec3::new(1000, 0, 0);
    let y = IVec3::new(0, 1000, 0);
    let neg_x = IVec3::new(-1000, 0, 0);
    assert_eq!(dot(&x, &x), 1_000_000);
    assert_eq!(dot(&x, &y), 0);
    assert!(is_antiparallel(&x, &neg_x));
    assert!(!is_antiparallel(&x, &y));
    // Opposing spines point against each other.
    for (a, b) in [(0usize, 3usize), (1, 2), (4, 7), (5, 6), (8, 11), (9, 10)] {
        let da = spine_direction(a);
        let db = spine_direction(b);
        assert!(is_antiparallel(&da, &db), "spines {} and {} should oppose", a, b);
    }
    // The gravity scaling negates and amplifies.
    let g = ImuReadings { xa: 100, ya: -200, za: 300, xg: 0, yg: 0, zg: 0 };
    let v = g.accel_vector().scale(-5);
    assert_eq!(v, IVec3::new(-500, 1000, -1500));
}

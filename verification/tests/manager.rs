//! Tests for the pattern manager state machine and the control setpoints.

use isopod::common_structs::ImuReadings;
use isopod::controls::Controls;
use isopod::motion_sensor::MotionSummary;
use isopod::pattern_manager::PatternManager;
use isopod::pattern_manager::StartMode;
use isopod::patterns::PatternName;

fn still_summary(orientation: ImuReadings) -> MotionSummary {
    MotionSummary { shock: false, creep: false, sleep_timeout: false, orientation: Some(orientation) }
}

fn accel(xa: i64, ya: i64, za: i64) -> ImuReadings {
    ImuReadings { xa, ya, za, xg: 0, yg: 0, zg: 0 }
}

#[test]
fn transition_selects_pattern_by_orientation() {
    let mut manager = PatternManager::new(StartMode::Reactive);
    let imu = accel(-1000, -1000, 1000);
    let motion = still_summary(imu);
    // The initial transition shows no pattern.
    manager.step(&None, &imu, &motion, None);
    assert_eq!(manager.active_name(), None);
    // After the 60-frame transition the orientation picks starfield.
    for _ in 0..61 {
        manager.step(&None, &imu, &motion, None);
    }
    assert_eq!(manager.active_name(), Some(PatternName::Starfield));
    // It keeps playing while nothing moves.
    for _ in 0..100 {
        manager.step(&None, &imu, &motion, None);
    }
    assert_eq!(manager.active_name(), Some(PatternName::Starfield));
}

#[test]
fn opposite_orientation_selects_sparkles() {
    let mut manager = PatternManager::new(StartMode::Reactive);
    let imu = accel(1000, 1000, -1000);
    let motion = still_summary(imu);
    for _ in 0..62 {
        manager.step(&None, &imu, &motion, None);
    }
    assert_eq!(manager.active_name(), Some(PatternName::Sparkles));
}

#[test]
fn shock_brings_the_beans_in() {
    let mut manager = PatternManager::new(StartMode::Reactive);
    let imu = accel(0, 0, 9810);
    let moving = MotionSummary { shock: true, creep: false, sleep_timeout: false, orientation: Some(imu) };
    for _ in 0..62 {
        manager.step(&None, &imu, &moving, None);
    }
    assert_eq!(manager.active_name(), Some(PatternName::Beans));
}

#[test]
fn sleep_timeout_brings_sleep_in() {
    let mut manager = PatternManager::new(StartMode::Reactive);
    let imu = accel(0, 0, 9810);
    let sleepy = MotionSummary { shock: false, creep: false, sleep_timeout: true, orientation: Some(imu) };
    for _ in 0..62 {
        manager.step(&None, &imu, &sleepy, None);
    }
    assert_eq!(manager.active_name(), Some(PatternName::Sleep));
    // Sleep does not transition away on the sleep timeout alone.
    for _ in 0..100 {
        manager.step(&None, &imu, &sleepy, None);
    }
    assert_eq!(manager.active_name(), Some(PatternName::Sleep));
}

#[test]
fn shock_interrupts_a_stationary_pattern() {
    let mut manager = PatternManager::new(StartMode::Reactive);
    let imu = accel(-1000, -1000, 1000);
    let motion = still_summary(imu);
    for _ in 0..62 {
        manager.step(&None, &imu, &motion, None);
    }
    assert_eq!(manager.active_name(), Some(PatternName::Starfield));
    let moving = MotionSummary { shock: true, creep: false, sleep_timeout: false, orientation: Some(imu) };
    // The shock schedules a transition, applied one frame later.
    manager.step(&None, &imu, &moving, None);
    manager.step(&None, &imu, &moving, None);
    assert_eq!(manager.active_name(), None);
}

#[test]
fn fixed_mode_never_transitions() {
    let mut manager = PatternManager::new(StartMode::Fixed(PatternName::Zoom));
    let imu = accel(0, 0, 9810);
    let moving = MotionSummary { shock: true, creep: true, sleep_timeout: true, orientation: Some(imu) };
    for _ in 0..200 {
        manager.step(&None, &imu, &moving, None);
    }
    assert_eq!(manager.active_name(), Some(PatternName::Zoom));
}

#[test]
fn manager_returns_a_frame_every_call() {
    let mut manager = PatternManager::new(StartMode::Reactive);
    let imu = accel(0, 0, 9810);
    let motion = still_summary(imu);
    for _ in 0..200 {
        let frame = manager.step(&None, &imu, &motion, None);
        // The borrowed frame is readable until the next call.
        let _ = frame.get(0, 0);
        let _ = frame.get(11, 58);
    }
}

#[test]
fn jukebox_cycles_to_a_playlist_entry() {
    let mut manager = PatternManager::new(StartMode::Jukebox);
    let imu = accel(0, 0, 9810);
    let motion = still_summary(imu);
    assert_eq!(manager.active_name(), Some(PatternName::ColourWipes));
    // Dwell, cross-fade, and land on some playlist entry.
    for _ in 0..(3602 + 62) {
        manager.step(&None, &imu, &motion, None);
    }
    let name = manager.active_name().expect("the jukebox should be playing again");
    assert_ne!(name, PatternName::Beans);
    assert_ne!(name, PatternName::StripTest);
    assert_ne!(name, PatternName::TestBlackout);
    assert_ne!(name, PatternName::IdSpines);
}

#[test]
fn jukebox_honours_the_pattern_setpoint() {
    let mut manager = PatternManager::new(StartMode::Jukebox);
    let imu = accel(0, 0, 9810);
    let motion = still_summary(imu);
    assert_eq!(manager.active_name(), Some(PatternName::ColourWipes));
    // A differing setpoint ends the dwell early: the cross-fade is
    // scheduled on the first step and applied on the second.
    manager.step(&None, &imu, &motion, Some(PatternName::Glitch));
    manager.step(&None, &imu, &motion, Some(PatternName::Glitch));
    assert_eq!(manager.active_name(), None);
    // A matching setpoint does not end a dwell.
    let mut steady = PatternManager::new(StartMode::Jukebox);
    for _ in 0..100 {
        steady.step(&None, &imu, &motion, Some(PatternName::ColourWipes));
    }
    assert_eq!(steady.active_name(), Some(PatternName::ColourWipes));
}

#[test]
fn controls_reject_invalid_writes() {
    let mut controls = Controls::default();
    assert_eq!(controls.brightness, 100);
    assert_eq!(controls.pattern, "colour_wipes");
    controls.set_brightness(101);
    assert_eq!(controls.brightness, 100);
    controls.set_pattern("not_a_pattern".to_owned());
    assert_eq!(controls.pattern, "colour_wipes");
    controls.set_brightness(50);
    controls.set_pattern("starfield".to_owned());
    assert_eq!(controls.brightness, 50);
    assert_eq!(controls.pattern, "starfield");
}

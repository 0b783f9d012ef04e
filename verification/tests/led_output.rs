//! Tests for the LED output stage: wire byte order, scaling, the spine
//! mapping check and the power gate.

use isopod::frame::LedUpdate;
use isopod::led::build_wire_frame;
use isopod::led::check_mapping;
use isopod::led::get_power_limit_scaling;
use isopod::led::total_current;
use isopod::led::PowerAction;
use isopod::led::PowerGate;

fn identity_map() -> Vec<usize> {
    vec![1, 2, 3, 4, 5, 6, 7, 8, 9, 10, 11, 12]
}

#[test]
fn wire_uses_bgr_zero_byte_order() {
    let mut frame = LedUpdate::new_black();
    frame.set(2, 3, [5, 6, 7]);
    let wire = build_wire_frame(&frame, &identity_map(), 100);
    assert_eq!(wire.len(), 12 * 59);
    assert_eq!(wire[2 * 59 + 3], [7, 6, 5, 0]);
    assert_eq!(wire[0], [0, 0, 0, 0]);
}

#[test]
fn identity_mapping_is_bit_exact() {
    let mut frame = LedUpdate::new_black();
    for s in 0..12 {
        frame.set(s, s, [s as u8, 2 * s as u8, 100 + s as u8]);
    }
    let wire = build_wire_frame(&frame, &identity_map(), 100);
    for s in 0..12 {
        assert_eq!(wire[s * 59 + s], [100 + s as u8, 2 * s as u8, s as u8, 0]);
    }
}

#[test]
fn spine_mapping_permutes_connectors() {
    let mut frame = LedUpdate::new_black();
    frame.set(0, 7, [9, 8, 7]);
    // Connector 5 carries spine position 1 (logical spine 0).
    let map: Vec<usize> = vec![2, 3, 4, 5, 6, 1, 7, 8, 9, 10, 11, 12];
    let wire = build_wire_frame(&frame, &map, 100);
    assert_eq!(wire[5 * 59 + 7], [7, 8, 9, 0]);
    assert_eq!(wire[0 * 59 + 7], [0, 0, 0, 0]);
}

#[test]
fn brightness_setpoint_scales_subpixels() {
    let mut frame = LedUpdate::new_black();
    frame.set(0, 0, [200, 100, 50]);
    let wire = build_wire_frame(&frame, &identity_map(), 50);
    assert_eq!(wire[0], [25, 50, 100, 0]);
    // Ties round to the even byte: 5 * 50/100 = 2.5 rounds to 2.
    frame.set(0, 0, [5, 7, 0]);
    let wire = build_wire_frame(&frame, &identity_map(), 50);
    assert_eq!(wire[0], [0, 4, 2, 0]);
}

#[test]
fn power_limit_compresses_bright_frames() {
    let mut frame = LedUpdate::new_black();
    frame.fill([255, 255, 255]);
    // Predicted current: 1.5 A offset plus 708 pixels at full white.
    assert_eq!(total_current(&frame), 30_478_475_400);
    assert_eq!(get_power_limit_scaling(&frame), Some((4_000_000_000, 30_478_475_400)));
    let wire = build_wire_frame(&frame, &identity_map(), 100);
    // 255 * 4 / 30.478 amps scales every subpixel down to 33.
    assert_eq!(wire[0], [33, 33, 33, 0]);
}

#[test]
fn dark_frames_draw_only_the_offset() {
    let frame = LedUpdate::new_black();
    assert_eq!(total_current(&frame), 1_500_000_000);
    assert_eq!(get_power_limit_scaling(&frame), None);
}

#[test]
fn mapping_check_accepts_permutations_only() {
    assert!(check_mapping(&identity_map()));
    assert!(check_mapping(&vec![12, 11, 10, 9, 8, 7, 6, 5, 4, 3, 2, 1]));
    // A repeated entry is rejected.
    assert!(!check_mapping(&vec![1, 1, 3, 4, 5, 6, 7, 8, 9, 10, 11, 12]));
    // An out-of-range entry is rejected.
    assert!(!check_mapping(&vec![0, 2, 3, 4, 5, 6, 7, 8, 9, 10, 11, 12]));
    assert!(!check_mapping(&vec![13, 2, 3, 4, 5, 6, 7, 8, 9, 10, 11, 12]));
    // A short mapping is rejected.
    assert!(!check_mapping(&vec![1, 2, 3]));
}

#[test]
fn power_gate_cuts_after_three_black_frames() {
    let mut gate = PowerGate::new();
    let black = LedUpdate::new_black();
    let mut lit = LedUpdate::new_black();
    lit.set(0, 0, [1, 0, 0]);
    // From cold, the first frame (black or not) powers up; the first two
    // black frames are still emitted, the third cuts power.
    assert_eq!(gate.observe(&black), PowerAction::PowerUp);
    assert_eq!(gate.observe(&black), PowerAction::NoChange);
    assert_eq!(gate.observe(&black), PowerAction::PowerDown);
    assert_eq!(gate.observe(&black), PowerAction::NoChange);
    // The next non-black frame restores power.
    assert_eq!(gate.observe(&lit), PowerAction::PowerUp);
    assert_eq!(gate.observe(&lit), PowerAction::NoChange);
    // And its wire words carry the red pixel in [B, G, R, 0] order.
    let wire = build_wire_frame(&lit, &identity_map(), 100);
    assert_eq!(wire[0], [0, 0, 1, 0]);
    // Going dark again repeats the cycle.
    assert_eq!(gate.observe(&black), PowerAction::NoChange);
    assert_eq!(gate.observe(&black), PowerAction::NoChange);
    assert_eq!(gate.observe(&black), PowerAction::PowerDown);
}

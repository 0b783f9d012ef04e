//! Tests for the bean tube physics and the beans pattern.

use isopod::common_structs::ImuReadings;
use isopod::patterns::beans::bean_sim::BeanTube;
use isopod::patterns::beans::bean_sim::NUM_BEANS;
use isopod::patterns::beans::bean_sim::TUBE_LEN;
use isopod::patterns::beans::pattern::Beans;

const WHITE: [u8; 3] = [255, 255, 255];
const BLACK: [u8; 3] = [0, 0, 0];

fn zero_fuzz() -> Vec<i64> {
    vec![0; NUM_BEANS]
}

#[test]
fn new_tube_is_centred() {
    // Beans start at slots 38.5 .. 78.5, which round to 39 .. 79.
    let tube = BeanTube::new();
    assert_eq!(tube.get_colour(38), BLACK);
    for slot in 39..=79 {
        assert_eq!(tube.get_colour(slot), WHITE);
    }
    assert_eq!(tube.get_colour(80), BLACK);
    assert!(!tube.is_stacked());
}

#[test]
fn beans_reach_equilibrium_under_constant_gravity() {
    // Constant rightward gravity with the randomness turned off: after at
    // most 120 frames every bean is packed against the right wall, in
    // slots 77 .. 117 exactly.
    let mut tube = BeanTube::new();
    let fuzz = zero_fuzz();
    for _ in 0..120 {
        for _ in 0..10 {
            // One frame of step(9810) is ten sub-steps at a hundredth.
            tube.sub_step_with_fuzz(98, &fuzz);
        }
    }
    assert!(tube.is_stacked());
    for slot in 0..(TUBE_LEN - NUM_BEANS) {
        assert_eq!(tube.get_colour(slot), BLACK, "slot {} should be empty", slot);
    }
    for slot in (TUBE_LEN - NUM_BEANS)..TUBE_LEN {
        assert_eq!(tube.get_colour(slot), WHITE, "slot {} should hold a bean", slot);
    }
}

#[test]
fn beans_stack_left_under_negative_gravity() {
    let mut tube = BeanTube::new();
    let fuzz = zero_fuzz();
    for _ in 0..120 {
        for _ in 0..10 {
            tube.sub_step_with_fuzz(-98, &fuzz);
        }
    }
    assert!(tube.is_stacked());
    for slot in 0..NUM_BEANS {
        assert_eq!(tube.get_colour(slot), WHITE);
    }
    for slot in NUM_BEANS..TUBE_LEN {
        assert_eq!(tube.get_colour(slot), BLACK);
    }
}

#[test]
fn random_step_keeps_bean_count() {
    // The real `step` draws its own velocity fuzz; whatever it drew, all
    // 41 beans must still occupy 41 distinct slots.
    let mut tube = BeanTube::new();
    for _ in 0..60 {
        tube.step(49050);
    }
    let mut occupied = 0;
    for slot in 0..TUBE_LEN {
        if tube.get_colour(slot) != BLACK {
            occupied += 1;
        }
    }
    assert_eq!(occupied, NUM_BEANS);
}

#[test]
fn beans_pattern_startup_band_grows() {
    let mut beans = Beans::new_direct();
    let imu = ImuReadings::default();
    // First frame: only the root pixel of each spine is lit.
    let frame = beans.step(&None, &imu);
    for s in 0..12 {
        assert_eq!(frame.get(s, 0), WHITE);
        assert_eq!(frame.get(s, 1), BLACK);
    }
    // Four frames later the band has grown by one pixel.
    for _ in 0..4 {
        beans.step(&None, &imu);
    }
    let frame = beans.frame_ref();
    for s in 0..12 {
        assert_eq!(frame.get(s, 0), WHITE);
        assert_eq!(frame.get(s, 1), WHITE);
        assert_eq!(frame.get(s, 2), BLACK);
    }
}

#[test]
fn beans_pattern_paints_all_beans_after_startup() {
    let mut beans = Beans::new_direct();
    let imu = ImuReadings { xa: 0, ya: 0, za: -9810, xg: 0, yg: 0, zg: 0 };
    // Run through the start-up animation and a while of physics.
    for _ in 0..120 {
        beans.step(&None, &imu);
    }
    // Every tube holds 41 beans, so over each opposing spine pair exactly
    // 41 pixels are lit (the tube has 118 slots and both spines show 59).
    let frame = beans.frame_ref();
    let pairs = [(0usize, 3usize), (1, 2), (4, 7), (5, 6), (8, 11), (9, 10)];
    for (a, b) in pairs {
        let mut lit = 0;
        for k in 0..59 {
            if frame.get(a, k) != BLACK {
                lit += 1;
            }
            if frame.get(b, k) != BLACK {
                lit += 1;
            }
        }
        assert_eq!(lit, NUM_BEANS);
    }
}

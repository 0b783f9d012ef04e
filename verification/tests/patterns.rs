//! Tests for the individual animation patterns and the registry.

use isopod::common_structs::ImuReadings;
use isopod::frame::LedUpdate;
use isopod::hsv::hsv_to_rgb;
use isopod::hsv::random_saturated_colour;
use isopod::patterns::colourwipes::decay_frame;
use isopod::patterns::colourwipes::ColourWipes;
use isopod::patterns::glitch::Glitch;
use isopod::patterns::id_spines::IdSpines;
use isopod::patterns::pattern_by_name;
use isopod::patterns::sleep::Sleep;
use isopod::patterns::sparkles::Sparkles;
use isopod::patterns::starfield::Starfield;
use isopod::patterns::strip_test::StripTest;
use isopod::patterns::test_blackout::TestBlackout;
use isopod::patterns::wormholes::WormHole;
use isopod::patterns::zoom::Zoom;
use isopod::patterns::ActivePattern;
use isopod::patterns::PatternName;

const WHITE: [u8; 3] = [255, 255, 255];
const BLACK: [u8; 3] = [0, 0, 0];

fn still() -> ImuReadings {
    ImuReadings::default()
}

#[test]
fn zoom_lights_every_tenth_pixel() {
    let mut zoom = Zoom::new();
    let frame = zoom.step(&None, &still());
    for s in 0..12 {
        for k in 0..59 {
            let expected = if k % 10 == 0 { WHITE } else { BLACK };
            assert_eq!(frame.get(s, k), expected);
        }
    }
    // The phase wrapped to 60, so the lit pixels shift by one.
    let frame = zoom.step(&None, &still());
    for k in 0..59 {
        let expected = if (k + 60) % 10 == 0 { WHITE } else { BLACK };
        assert_eq!(frame.get(0, k), expected);
    }
}

#[test]
fn strip_test_shows_separated_primaries() {
    let mut st = StripTest::new();
    let frame = st.step(&None, &still());
    assert_eq!(frame.get(0, 0), [255, 0, 0]);
    assert_eq!(frame.get(0, 2), [0, 255, 0]);
    assert_eq!(frame.get(0, 4), [0, 0, 255]);
    assert_eq!(frame.get(0, 1), BLACK);
    assert_eq!(frame.get(0, 3), BLACK);
    assert_eq!(frame.get(0, 5), BLACK);
    assert_eq!(frame.get(0, 10), [255, 0, 0]);
}

#[test]
fn test_blackout_blinks_one_pixel() {
    let mut tb = TestBlackout::new();
    let frame = tb.step(&None, &still());
    assert_eq!(frame.get(0, 0), [1, 0, 0]);
    assert_eq!(frame.get(0, 1), BLACK);
    assert_eq!(frame.get(1, 0), BLACK);
    // After 120 steps the counter reaches the dark half of the cycle.
    for _ in 0..119 {
        tb.step(&None, &still());
    }
    let frame = tb.frame_ref();
    assert_eq!(frame.get(0, 0), BLACK);
}

#[test]
fn id_spines_markings() {
    let mut id = IdSpines::new();
    let frame = id.step(&None, &still());
    // Spine 0: single red pixels with two-pixel gaps.
    assert_eq!(frame.get(0, 0), BLACK);
    assert_eq!(frame.get(0, 1), BLACK);
    assert_eq!(frame.get(0, 2), [255, 0, 0]);
    assert_eq!(frame.get(0, 3), BLACK);
    // Spine 4: single green pixels.
    assert_eq!(frame.get(4, 2), [0, 255, 0]);
    // Spine 11: groups of four blue pixels.
    assert_eq!(frame.get(11, 0), BLACK);
    assert_eq!(frame.get(11, 1), BLACK);
    for k in 2..6 {
        assert_eq!(frame.get(11, k), [0, 0, 255]);
    }
    assert_eq!(frame.get(11, 6), BLACK);
}

#[test]
fn sleep_heartbeat_feeds_the_roots() {
    let mut sleep = Sleep::new();
    let frame = sleep.step(&None, &still());
    // The first heartbeat sample is zero.
    assert_eq!(frame.get(0, 0), BLACK);
    let frame = sleep.step(&None, &still());
    // The second is the dimmest red.
    assert_eq!(frame.get(0, 0), [1, 0, 0]);
    // By the peak of the first pulse the root is fully red, on every
    // spine, and the earlier samples have streamed outward.
    for _ in 0..21 {
        sleep.step(&None, &still());
    }
    let frame = sleep.frame_ref();
    for s in 0..12 {
        assert_eq!(frame.get(s, 0), [255, 0, 0]);
        assert_eq!(frame.get(s, 22), BLACK);
    }
}

#[test]
fn starfield_roots_are_stars_or_dark() {
    let mut sf = Starfield::new();
    for _ in 0..300 {
        let frame = sf.step(&None, &still());
        for s in 0..12 {
            let px = frame.get(s, 0);
            let is_star = px[0] == px[1] && px[1] == px[2] && px[0] >= 85;
            assert!(px == BLACK || is_star, "bad root pixel {:?}", px);
        }
    }
}

#[test]
fn starfield_stars_actually_vary() {
    // Across hundreds of draws the starfield must show both dark roots and
    // stars of at least two intensities; a randomness source stuck on one
    // value would fail this.
    let mut sf = Starfield::new();
    let mut intensities = Vec::new();
    let mut saw_black = false;
    for _ in 0..100 {
        let frame = sf.step(&None, &still());
        for s in 0..12 {
            let px = frame.get(s, 0);
            if px == BLACK {
                saw_black = true;
            } else if !intensities.contains(&px[0]) {
                intensities.push(px[0]);
            }
        }
    }
    assert!(saw_black);
    assert!(intensities.len() >= 2, "star intensities never varied: {:?}", intensities);
}

#[test]
fn sparkles_pixels_are_black_or_white_and_paired() {
    let mut sp = Sparkles::new();
    for _ in 0..30 {
        let frame = sp.step(&None, &still());
        for s in 0..12 {
            for k in 0..59 {
                let px = frame.get(s, k);
                assert!(px == BLACK || px == WHITE);
                // Sparkles come in neighbouring pairs, except close to the
                // tip where the outward neighbour may not fit.
                if px == WHITE && k < 57 {
                    let beside = (k > 0 && frame.get(s, k - 1) == WHITE)
                        || frame.get(s, k + 1) == WHITE;
                    assert!(beside, "lone sparkle at ({}, {})", s, k);
                }
            }
        }
    }
}

#[test]
fn glitch_starts_dark() {
    let mut gl = Glitch::new();
    let frame = gl.step(&None, &still());
    for s in 0..12 {
        for k in 0..59 {
            assert_eq!(frame.get(s, k), BLACK);
        }
    }
    // Whatever the randomness does, stepping keeps producing full frames.
    for _ in 0..200 {
        gl.step(&None, &still());
    }
}

#[test]
fn hsv_primaries_and_white() {
    assert_eq!(hsv_to_rgb(0, 1000, 1000), [255, 0, 0]);
    assert_eq!(hsv_to_rgb(120_000, 1000, 1000), [0, 255, 0]);
    assert_eq!(hsv_to_rgb(240_000, 1000, 1000), [0, 0, 255]);
    assert_eq!(hsv_to_rgb(60_000, 1000, 1000), [255, 255, 0]);
    assert_eq!(hsv_to_rgb(123_456, 0, 1000), [255, 255, 255]);
    assert_eq!(hsv_to_rgb(0, 1000, 0), [0, 0, 0]);
}

#[test]
fn random_colour_is_fully_bright() {
    // A fully saturated random colour always has one full channel; this
    // fails if the random draw or the conversion were inert.
    for _ in 0..50 {
        let c = random_saturated_colour();
        assert!(c[0] == 255 || c[1] == 255 || c[2] == 255, "{:?}", c);
    }
}

#[test]
fn decay_fades_to_black_and_spares_white() {
    let mut frame = LedUpdate::new_black();
    frame.set(0, 0, [10, 10, 10]);
    frame.set(1, 5, [9, 9, 9]);
    frame.set(2, 7, WHITE);
    for _ in 0..4 {
        decay_frame(&mut frame);
    }
    assert_eq!(frame.get(0, 0), [2, 2, 2]);
    assert_eq!(frame.get(1, 5), [1, 1, 1]);
    assert_eq!(frame.get(2, 7), WHITE);
    decay_frame(&mut frame);
    assert_eq!(frame.get(0, 0), BLACK);
    assert_eq!(frame.get(1, 5), BLACK);
    assert_eq!(frame.get(2, 7), WHITE);
}

#[test]
fn colour_wipes_head_reaches_the_spine() {
    let mut cw = ColourWipes::new();
    // The first wipe spawns on spine 0 at position -5.0 and moves half a
    // pixel per frame; its white head enters pixel 1 on the 13th frame.
    for _ in 0..12 {
        cw.step(&None, &still());
    }
    assert_eq!(cw.frame_ref().get(0, 1), BLACK);
    cw.step(&None, &still());
    assert_eq!(cw.frame_ref().get(0, 1), WHITE);
}

#[test]
fn wormhole_renders_head_body_and_fades() {
    let w = WormHole {
        spine: 3,
        start: 0,
        end: 59,
        velocity: 1,
        worm_head_pos: 40,
        colour: [100, 200, 50],
        fractional_head_pos: 0,
    };
    let mut frame = LedUpdate::new_black();
    w.render(&mut frame);
    // White head, with a half-fade one pixel ahead.
    assert_eq!(frame.get(3, 40), WHITE);
    assert_eq!(frame.get(3, 41), [128, 128, 128]);
    assert_eq!(frame.get(3, 42), BLACK);
    // Solid body behind the head.
    for k in 21..40 {
        assert_eq!(frame.get(3, k), [100, 200, 50]);
    }
    // Tail fade toward black: at the body edge the full colour, at the
    // far end nothing.
    assert_eq!(frame.get(3, 20), [100, 200, 50]);
    assert_eq!(frame.get(3, 15), [50, 100, 25]);
    assert_eq!(frame.get(3, 10), BLACK);
    assert_eq!(frame.get(3, 9), BLACK);
    // Other spines untouched.
    assert_eq!(frame.get(2, 40), BLACK);
}

#[test]
fn wormhole_overlap_and_finish() {
    let a = WormHole {
        spine: 1,
        start: 0,
        end: 10,
        velocity: 1,
        worm_head_pos: 0,
        colour: WHITE,
        fractional_head_pos: 0,
    };
    let b = WormHole { start: 10, end: 20, ..a };
    let c = WormHole { start: 11, end: 20, ..a };
    let d = WormHole { spine: 2, ..a };
    assert!(a.overlaps(&b));
    assert!(!a.overlaps(&c));
    assert!(!a.overlaps(&d));
    assert!(!a.finished());
    let gone = WormHole { worm_head_pos: 43, ..a };
    assert!(gone.finished());
}

#[test]
fn wormhole_step_advances_by_inverse_speed() {
    let mut w = WormHole {
        spine: 0,
        start: 0,
        end: 59,
        velocity: 2,
        worm_head_pos: 5,
        colour: WHITE,
        fractional_head_pos: 0,
    };
    w.step();
    assert_eq!(w.worm_head_pos, 5);
    assert_eq!(w.fractional_head_pos, 1);
    w.step();
    assert_eq!(w.worm_head_pos, 6);
    assert_eq!(w.fractional_head_pos, 0);
    // The slowest worm takes three frames per pixel, backwards here.
    let mut slow = WormHole { velocity: -3, worm_head_pos: 20, ..w };
    slow.step();
    slow.step();
    assert_eq!(slow.worm_head_pos, 20);
    slow.step();
    assert_eq!(slow.worm_head_pos, 19);
    assert_eq!(slow.fractional_head_pos, 0);
}

#[test]
fn registry_finds_every_pattern_and_rejects_strangers() {
    assert_eq!(pattern_by_name(&"zoom".to_owned()), Some(PatternName::Zoom));
    assert_eq!(pattern_by_name(&"beans".to_owned()), Some(PatternName::Beans));
    assert_eq!(pattern_by_name(&"colour_wipes".to_owned()), Some(PatternName::ColourWipes));
    assert_eq!(pattern_by_name(&"sleep".to_owned()), Some(PatternName::Sleep));
    assert_eq!(pattern_by_name(&"not_a_pattern".to_owned()), None);
    assert_eq!(pattern_by_name(&"".to_owned()), None);
}

#[test]
fn active_pattern_names_and_sleep_flag() {
    let p = ActivePattern::by_name(PatternName::Sleep);
    assert!(p.is_sleep());
    assert_eq!(p.get_name(), "sleep");
    let q = ActivePattern::by_name(PatternName::Glitch);
    assert!(!q.is_sleep());
    assert_eq!(q.get_name(), "glitch");
}

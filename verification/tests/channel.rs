use p2m_server::channel::{blend_channel, cut_channel, sample_of, scale_channel, Blend, Gain};
use p2m_server::precision::{round, round_quotient, UNIT};

fn native_blend(c: u8, gray: u8, grayscale: u32) -> u8 {
    let factor = grayscale as f32 / 100.0;
    let gray_value = gray as f32 * factor;
    (c as f32 * (1.0 - factor) + gray_value) as u8
}

fn native_scale(c: u8, brightness: u32) -> u8 {
    let factor = brightness as f32 / 50.0;
    (c as f32 * factor).clamp(0.0, 255.0) as u8
}

fn native_cut(c: u8, threshold: u32) -> u8 {
    let cutoff = threshold as f32 * 2.5;
    if c as f32 >= cutoff {
        c
    } else {
        0
    }
}

fn blend_agrees(from: u32, to: u32) {
    for grayscale in from..to {
        let blend = Blend::new(grayscale);
        for c in 0..=255u8 {
            for gray in 0..=255u8 {
                assert_eq!(
                    blend.mix(c, gray),
                    native_blend(c, gray, grayscale),
                    "c = {}, gray = {}, grayscale = {}",
                    c,
                    gray,
                    grayscale
                );
            }
        }
    }
}

#[test]
fn blend_is_single_precision_up_to_20() {
    blend_agrees(0, 21);
}

#[test]
fn blend_is_single_precision_up_to_40() {
    blend_agrees(21, 41);
}

#[test]
fn blend_is_single_precision_up_to_60() {
    blend_agrees(41, 61);
}

#[test]
fn blend_is_single_precision_up_to_80() {
    blend_agrees(61, 81);
}

#[test]
fn blend_is_single_precision_up_to_100() {
    blend_agrees(81, 101);
}

#[test]
fn blend_is_single_precision_beyond_the_domain() {
    let knobs = [
        101u32, 102, 150, 199, 200, 201, 255, 256, 1000, 65535, 16777215, 16777216, 16777217,
        16777219, 33554434, 123456789, 2147483777, 4294967295,
    ];
    for grayscale in knobs {
        for c in (0..=255u8).step_by(3) {
            for gray in 0..=255u8 {
                assert_eq!(
                    blend_channel(c, gray, grayscale),
                    native_blend(c, gray, grayscale),
                    "c = {}, gray = {}, grayscale = {}",
                    c,
                    gray,
                    grayscale
                );
            }
        }
    }
}

#[test]
fn scale_is_single_precision() {
    let mut knobs: Vec<u32> = (0..=300).collect();
    knobs.extend_from_slice(&[
        1000, 65535, 16777215, 16777216, 16777217, 16777219, 33554434, 2147483777, 4294967295,
    ]);
    for brightness in knobs {
        let gain = Gain::new(brightness);
        for c in 0..=255u8 {
            assert_eq!(gain.scale(c), native_scale(c, brightness));
            assert_eq!(scale_channel(c, brightness), native_scale(c, brightness));
        }
    }
}

#[test]
fn cut_is_single_precision() {
    let mut knobs: Vec<u32> = (0..=300).collect();
    knobs.extend_from_slice(&[16777217, 1717986918, 1717986919, 4294967295]);
    for threshold in knobs {
        for c in 0..=255u8 {
            assert_eq!(cut_channel(c, threshold), native_cut(c, threshold));
        }
    }
}

#[test]
fn round_keeps_twenty_four_bits() {
    assert_eq!(round(0), 0);
    assert_eq!(round(16777215), 16777215);
    assert_eq!(round(16777216), 16777216);
    // halfway between two neighbours: the even one wins
    assert_eq!(round(16777217), 16777216);
    assert_eq!(round(16777219), 16777220);
    assert_eq!(round(16777218), 16777218);
    assert_eq!(round(33554434), 33554432);
    assert_eq!(round(33554438), 33554440);
    assert_eq!(round(33554435), 33554436);
    for n in [1u32, 77, 16777217, 16777219, 123456789, 4294967295, 4294967167] {
        assert_eq!(round(n as u128), (n as f32) as u128);
    }
}

#[test]
fn round_quotient_is_the_nearest_fraction() {
    // one hundredth and one fiftieth in units of 2^-30
    assert_eq!(round_quotient(UNIT, 100), 10737418);
    assert_eq!(round_quotient(UNIT, 50), 21474836);
    assert_eq!(round_quotient(100 * UNIT, 100), UNIT);
    assert_eq!(round_quotient(0, 7), 0);
    for knob in 0..=1000u32 {
        let native = (knob as f32 / 100.0) as f64 * (UNIT as f64);
        assert_eq!(round_quotient(knob as u128 * UNIT, 100) as f64, native);
    }
    // a tie goes to the even neighbour
    assert_eq!(round_quotient(3 * 16777217, 3), 16777216);
    assert_eq!(round_quotient(3 * 16777219, 3), 16777220);
}

#[test]
fn sample_is_the_whole_part_up_to_255() {
    assert_eq!(sample_of(0), 0);
    assert_eq!(sample_of(UNIT - 1), 0);
    assert_eq!(sample_of(UNIT), 1);
    assert_eq!(sample_of(254 * UNIT + UNIT / 2), 254);
    assert_eq!(sample_of(255 * UNIT), 255);
    assert_eq!(sample_of(256 * UNIT), 255);
    assert_eq!(sample_of(u128::MAX), 255);
}

#[test]
fn blend_boundaries() {
    for c in 0..=255u8 {
        for gray in (0..=255u8).step_by(5) {
            assert_eq!(blend_channel(c, gray, 0), c);
            assert_eq!(blend_channel(c, gray, 100), gray);
        }
    }
    // halfway between 200 and 117
    assert_eq!(blend_channel(200, 117, 50), 158);
    // rounding after every step can lose the last level
    assert_eq!(blend_channel(3, 3, 4), 2);
    assert_eq!(blend_channel(9, 34, 4), 9);
    // past the domain the sum leaves the range and takes its nearer end
    assert_eq!(blend_channel(200, 100, 300), 0);
    assert_eq!(blend_channel(100, 200, 300), 255);
}

#[test]
fn scale_boundaries() {
    for c in 0..=255u8 {
        assert_eq!(scale_channel(c, 50), c);
        assert_eq!(scale_channel(c, 0), 0);
        assert_eq!(scale_channel(c, 100) as u32, (2 * c as u32).min(255));
    }
    assert_eq!(scale_channel(100, 75), 150);
    assert_eq!(scale_channel(150, 21), 62);
    assert_eq!(scale_channel(1, 4294967295), 255);
    assert_eq!(scale_channel(0, 4294967295), 0);
}

#[test]
fn cut_boundaries() {
    assert_eq!(cut_channel(99, 40), 0);
    assert_eq!(cut_channel(100, 40), 100);
    assert_eq!(cut_channel(249, 100), 0);
    assert_eq!(cut_channel(250, 100), 250);
    assert_eq!(cut_channel(255, 102), 255);
    assert_eq!(cut_channel(255, 103), 0);
    // an odd knob has a cutoff between two levels
    assert_eq!(cut_channel(2, 1), 0);
    assert_eq!(cut_channel(3, 1), 3);
    for c in 0..=255u8 {
        assert_eq!(cut_channel(c, 0), c);
    }
}

#[test]
fn blend_is_the_exact_blend_or_one_less_where_that_is_whole() {
    let mut short = 0;
    for grayscale in 0..=100u32 {
        for c in (0..=255u32).step_by(3) {
            for gray in (0..=255u32).step_by(5) {
                let total = c * (100 - grayscale) + gray * grayscale;
                let got = blend_channel(c as u8, gray as u8, grayscale) as u32;
                if total % 100 == 0 {
                    assert!(got == total / 100 || got + 1 == total / 100);
                    if got != total / 100 {
                        short += 1;
                    }
                } else {
                    assert_eq!(got, total / 100);
                }
            }
        }
    }
    // the one level is lost on some inputs, not on none
    assert!(short > 0);
}

#[test]
fn scale_is_the_exact_product_or_one_less_where_that_is_whole() {
    let mut short = 0;
    for brightness in 0..=100u32 {
        for c in 0..=255u32 {
            let total = c * brightness;
            let got = scale_channel(c as u8, brightness) as u32;
            if total % 50 == 0 {
                assert!(got == (total / 50).min(255) || got + 1 == (total / 50).min(256));
                if got != (total / 50).min(255) {
                    short += 1;
                }
            } else {
                assert_eq!(got, (total / 50).min(255));
            }
        }
    }
    assert_eq!(short, 22);
}

#[test]
fn scale_keeps_the_order_of_knobs_and_samples() {
    let mut knobs: Vec<u32> = (0..=260).collect();
    knobs.extend_from_slice(&[1000, 16777215, 16777217, 33554434, 4294967295]);
    let mut before = [0u8; 256];
    for (at, &brightness) in knobs.iter().enumerate() {
        let gain = Gain::new(brightness);
        let mut last = 0u8;
        for c in 0..=255u8 {
            let got = gain.scale(c);
            assert!(got >= last, "sample {} under {}", c, brightness);
            if at > 0 {
                assert!(got >= before[c as usize], "sample {} up to {}", c, brightness);
            }
            before[c as usize] = got;
            last = got;
        }
    }
}

use recoil_control::scale::scale_delta;
use recoil_control::scale::Sensitivity;
use recoil_control::scale::MAX_SENSITIVITY;
use recoil_control::scale::MIN_SENSITIVITY;
use recoil_control::scale::UNITS;
use recoil_control::scale::UNIT_SENSITIVITY;

#[test]
fn constants_have_their_values() {
    assert_eq!(UNITS, 1000);
    assert_eq!(MIN_SENSITIVITY, 100);
    assert_eq!(MAX_SENSITIVITY, 2000);
    assert_eq!(UNIT_SENSITIVITY, 1000);
}

#[test]
fn clamped_keeps_a_value_in_range() {
    assert_eq!(Sensitivity::clamped(1500).thousandths(), 1500);
    assert_eq!(Sensitivity::clamped(100).thousandths(), 100);
    assert_eq!(Sensitivity::clamped(2000).thousandths(), 2000);
    assert_eq!(Sensitivity::clamped(101).thousandths(), 101);
    assert_eq!(Sensitivity::clamped(1999).thousandths(), 1999);
}

#[test]
fn clamped_raises_a_value_below_the_range() {
    assert_eq!(Sensitivity::clamped(99).thousandths(), 100);
    assert_eq!(Sensitivity::clamped(0).thousandths(), 100);
    assert_eq!(Sensitivity::clamped(-1).thousandths(), 100);
    assert_eq!(Sensitivity::clamped(i64::MIN).thousandths(), 100);
}

#[test]
fn clamped_lowers_a_value_above_the_range() {
    assert_eq!(Sensitivity::clamped(2001).thousandths(), 2000);
    assert_eq!(Sensitivity::clamped(65_536 + 150).thousandths(), 2000);
    assert_eq!(Sensitivity::clamped(i64::MAX).thousandths(), 2000);
}

#[test]
fn unit_and_default_are_one() {
    assert_eq!(Sensitivity::unit().thousandths(), 1000);
    assert_eq!(Sensitivity::default().thousandths(), 1000);
    assert_eq!(Sensitivity::unit(), Sensitivity::clamped(1000));
}

#[test]
fn unit_sensitivity_keeps_whole_pixels() {
    let unit = Sensitivity::unit();
    for pixels in -50..=50 {
        assert_eq!(scale_delta(pixels * 1000, unit), pixels);
    }
    assert_eq!(scale_delta(2_147_483_000, unit), 2_147_483);
    assert_eq!(scale_delta(-2_147_483_000, unit), -2_147_483);
}

#[test]
fn a_tie_rounds_away_from_zero() {
    let unit = Sensitivity::unit();
    assert_eq!(scale_delta(500, unit), 1);
    assert_eq!(scale_delta(-500, unit), -1);
    assert_eq!(scale_delta(1500, unit), 2);
    assert_eq!(scale_delta(-1500, unit), -2);
    assert_eq!(scale_delta(2500, unit), 3);
    assert_eq!(scale_delta(-2500, unit), -3);
}

#[test]
fn a_fraction_rounds_to_the_nearest_pixel() {
    let unit = Sensitivity::unit();
    assert_eq!(scale_delta(499, unit), 0);
    assert_eq!(scale_delta(-499, unit), 0);
    assert_eq!(scale_delta(501, unit), 1);
    assert_eq!(scale_delta(-501, unit), -1);
    assert_eq!(scale_delta(-300, unit), 0);
    assert_eq!(scale_delta(200, unit), 0);
    assert_eq!(scale_delta(800, unit), 1);
    assert_eq!(scale_delta(0, unit), 0);
}

#[test]
fn sensitivity_multiplies_the_delta() {
    let double = Sensitivity::clamped(2000);
    assert_eq!(scale_delta(-400, double), -1);
    assert_eq!(scale_delta(-3500, double), -7);
    assert_eq!(scale_delta(-200, double), 0);
    assert_eq!(scale_delta(-4500, double), -9);
    assert_eq!(scale_delta(250, double), 1);
    assert_eq!(scale_delta(249, double), 0);
    let tenth = Sensitivity::clamped(100);
    assert_eq!(scale_delta(5000, tenth), 1);
    assert_eq!(scale_delta(4999, tenth), 0);
    assert_eq!(scale_delta(-5000, tenth), -1);
    assert_eq!(scale_delta(-8000, tenth), -1);
    assert_eq!(scale_delta(-14_999, tenth), -1);
    assert_eq!(scale_delta(-15_000, tenth), -2);
    let odd = Sensitivity::clamped(1234);
    assert_eq!(scale_delta(7000, odd), 9);
    assert_eq!(scale_delta(-6500, odd), -8);
}

#[test]
fn the_largest_deltas_scale_without_overflow() {
    let double = Sensitivity::clamped(2000);
    assert_eq!(scale_delta(i32::MAX, double), 4_294_967);
    assert_eq!(scale_delta(i32::MIN, double), -4_294_967);
    let unit = Sensitivity::unit();
    assert_eq!(scale_delta(i32::MAX, unit), 2_147_484);
    assert_eq!(scale_delta(i32::MIN, unit), -2_147_484);
    let tenth = Sensitivity::clamped(100);
    assert_eq!(scale_delta(i32::MAX, tenth), 214_748);
    assert_eq!(scale_delta(i32::MIN, tenth), -214_748);
}

#[test]
fn a_scaled_delta_is_within_half_a_pixel_of_the_product() {
    let mut raw: i64 = 100;
    while raw <= 2000 {
        let sensitivity = Sensitivity::clamped(raw);
        let mut delta: i32 = -9000;
        while delta <= 9000 {
            let out = scale_delta(delta, sensitivity) as i64;
            let exact = delta as i64 * raw;
            let error = (out * 1_000_000 - exact).abs();
            assert!(2 * error <= 1_000_000);
            delta += 37;
        }
        raw += 19;
    }
}

#[test]
fn mirroring_a_delta_mirrors_the_result() {
    let mut raw: i64 = 100;
    while raw <= 2000 {
        let sensitivity = Sensitivity::clamped(raw);
        let mut delta: i32 = 0;
        while delta <= 9000 {
            assert_eq!(scale_delta(-delta, sensitivity), -scale_delta(delta, sensitivity));
            delta += 125;
        }
        raw += 50;
    }
}

#[test]
fn scaling_agrees_with_floating_point_rounding() {
    let mut raw: i64 = 100;
    while raw <= 2000 {
        let sensitivity = Sensitivity::clamped(raw);
        let mut delta: i32 = -8000;
        while delta <= 8000 {
            let exact = (delta as f64 / 1000.0) * (raw as f64 / 1000.0);
            let nearest = (delta as i64 * raw) % 1_000_000;
            if nearest.abs() != 500_000 {
                assert_eq!(scale_delta(delta, sensitivity), exact.round() as i32);
            }
            delta += 100;
        }
        raw += 100;
    }
}

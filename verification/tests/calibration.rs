use faceboom::calibration::{
    map_axis, Calibrator, OFFSET_X, OFFSET_Y, SCREEN_HEIGHT, SCREEN_WIDTH,
};
use faceboom::geometry::{gap, Point, UNIT};

#[test]
fn constants_are_in_units() {
    assert_eq!(UNIT, 1_000_000);
    assert_eq!(SCREEN_WIDTH, 80 * UNIT);
    assert_eq!(SCREEN_HEIGHT, 50 * UNIT);
    assert_eq!(OFFSET_X, -70_000);
    assert_eq!(OFFSET_Y, 100_000);
}

#[test]
fn sample_at_offset_hits_left_edge_exactly() {
    // width 80, offset -0.07, origin 0, sample 0.07: raw value is exactly 0
    assert_eq!(map_axis(SCREEN_WIDTH, SCREEN_WIDTH, OFFSET_X, 0, 70_000), 0);
    let c = Calibrator::capture(Point::new(0, 0));
    assert_eq!(c.map(Point::new(70_000, 0)).x, 0);
}

#[test]
fn sample_at_negative_offset_hits_right_edge_exactly() {
    assert_eq!(map_axis(SCREEN_WIDTH, SCREEN_WIDTH, OFFSET_X, 0, -70_000), SCREEN_WIDTH);
}

#[test]
fn origin_maps_to_screen_centre() {
    for origin in [
        Point::new(0, 0),
        Point::new(512_345, 478_901),
        Point::new(-3, 7),
        Point::new(i32::MIN, i32::MAX),
        Point::new(i32::MAX, i32::MIN),
    ] {
        let c = Calibrator::capture(origin);
        assert_eq!(c.origin, origin);
        assert_eq!(c.map(origin), Point::new(40_000_000, 25_000_000));
    }
}

#[test]
fn axis_formula_exact_values() {
    // 40 + 80 * (-0.035) / (2 * -0.07) = 60
    assert_eq!(map_axis(SCREEN_WIDTH, SCREEN_WIDTH, OFFSET_X, 0, -35_000), 60_000_000);
    // 25 + 80 * 0.01 / (2 * 0.1) = 29: the vertical slope comes from the width
    assert_eq!(map_axis(SCREEN_HEIGHT, SCREEN_WIDTH, OFFSET_Y, 0, 10_000), 29_000_000);
    // 25 - 80 * 0.02 / 0.2 = 17
    assert_eq!(map_axis(SCREEN_HEIGHT, SCREEN_WIDTH, OFFSET_Y, 500_000, 480_000), 17_000_000);
    // 40 + 80 * 0.001 / -0.14 = 39.428571..., rounded toward the centre
    assert_eq!(map_axis(SCREEN_WIDTH, SCREEN_WIDTH, OFFSET_X, 0, 1_000), 39_428_572);
    assert_eq!(map_axis(SCREEN_WIDTH, SCREEN_WIDTH, OFFSET_X, 0, -1_000), 40_571_428);
}

#[test]
fn axis_quotient_rounds_toward_zero() {
    assert_eq!(map_axis(10, 10, 3, 0, 1), 6);
    assert_eq!(map_axis(10, 10, 3, 0, -1), 4);
    assert_eq!(map_axis(10, 10, -3, 0, 1), 4);
    assert_eq!(map_axis(10, 10, -3, 0, -1), 6);
    assert_eq!(map_axis(11, 10, 3, 0, 0), 5);
    assert_eq!(map_axis(10, 0, 3, 0, 1_000), 5);
    assert_eq!(map_axis(0, 10, 3, 0, 1), 0);
}

#[test]
fn axis_clamps_overshoot() {
    assert_eq!(map_axis(SCREEN_WIDTH, SCREEN_WIDTH, OFFSET_X, 0, 1_000_000), 0);
    assert_eq!(map_axis(SCREEN_WIDTH, SCREEN_WIDTH, OFFSET_X, 0, -1_000_000), SCREEN_WIDTH);
    assert_eq!(map_axis(SCREEN_HEIGHT, SCREEN_WIDTH, OFFSET_Y, 0, 1_000_000), SCREEN_HEIGHT);
    assert_eq!(map_axis(SCREEN_HEIGHT, SCREEN_WIDTH, OFFSET_Y, 0, -1_000_000), 0);
    // one unit inside the edge and on it
    assert_eq!(map_axis(SCREEN_HEIGHT, SCREEN_WIDTH, OFFSET_Y, 0, 62_500), SCREEN_HEIGHT);
    assert_eq!(map_axis(SCREEN_HEIGHT, SCREEN_WIDTH, OFFSET_Y, 0, -62_500), 0);
    assert_eq!(map_axis(SCREEN_HEIGHT, SCREEN_WIDTH, OFFSET_Y, 0, 62_499), 49_999_600);
}

#[test]
fn map_stays_on_screen_for_extreme_inputs() {
    let extremes = [i32::MIN, i32::MIN + 1, -1, 0, 1, 70_000, i32::MAX - 1, i32::MAX];
    for &ox in extremes.iter() {
        for &oy in extremes.iter() {
            for &sx in extremes.iter() {
                for &sy in extremes.iter() {
                    let p = Calibrator::capture(Point::new(ox, oy)).map(Point::new(sx, sy));
                    assert!(0 <= p.x && p.x <= SCREEN_WIDTH);
                    assert!(0 <= p.y && p.y <= SCREEN_HEIGHT);
                }
            }
        }
    }
}

#[test]
fn map_is_deterministic() {
    let c = Calibrator::capture(Point::new(501_000, 498_000));
    let s = Point::new(512_000, 470_000);
    let first = c.map(s);
    let second = c.map(s);
    assert_eq!(first, second);
    assert_eq!(first, Calibrator::capture(Point::new(501_000, 498_000)).map(s));
}

#[test]
fn map_moves_against_the_mirrored_axis() {
    let c = Calibrator::capture(Point::new(500_000, 500_000));
    // nose moves 0.014 to the image's right and 0.025 down
    let p = c.map(Point::new(514_000, 525_000));
    assert_eq!(p, Point::new(32_000_000, 35_000_000));
}

#[test]
fn gap_is_absolute_difference() {
    assert_eq!(gap(3, 10), 7);
    assert_eq!(gap(10, 3), 7);
    assert_eq!(gap(-5, -5), 0);
    assert_eq!(gap(i32::MIN, i32::MAX), 4_294_967_295);
    assert_eq!(gap(i32::MAX, i32::MIN), 4_294_967_295);
}

#[test]
fn dist_sq_exact_values() {
    let a = Point::new(25_000_000, 25_000_000);
    assert_eq!(a.dist_sq(&a), 0);
    assert_eq!(Point::new(0, 0).dist_sq(&Point::new(3, 4)), 25);
    assert_eq!(Point::new(3, 4).dist_sq(&Point::new(0, 0)), 25);
    assert_eq!(Point::new(-1, -1).dist_sq(&Point::new(2, 3)), 25);
    let far = Point::new(i32::MIN, i32::MIN).dist_sq(&Point::new(i32::MAX, i32::MAX));
    assert_eq!(far, 2 * 4_294_967_295u128 * 4_294_967_295u128);
}

#[test]
fn point_constructors() {
    assert_eq!(Point::new(4, -9), Point { x: 4, y: -9 });
    assert_eq!(Point::zero(), Point { x: 0, y: 0 });
}

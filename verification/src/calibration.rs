use vstd::prelude::*;
use crate::geometry::{gap, magnitude, Point};

verus! {

/// Screen width in units.
pub const SCREEN_WIDTH: i32 = 80_000_000;

/// Screen height in units.
pub const SCREEN_HEIGHT: i32 = 50_000_000;

/// Landmark travel on the horizontal axis, in units, that carries the marker
/// from the screen centre to an edge. Negative: the camera image is mirrored.
pub const OFFSET_X: i32 = -70_000;

/// Landmark travel on the vertical axis, in units, for half a screen width.
pub const OFFSET_Y: i32 = 100_000;

/// Quotient of `n` by `d`, rounded toward zero.
pub open spec fn quot_toward_zero(n: int, d: int) -> int
    recommends
        d != 0,
{
    if (n >= 0) == (d > 0) {
        magnitude(n) / magnitude(d)
    } else {
        -(magnitude(n) / magnitude(d))
    }
}

/// `v` limited to `[lo, hi]`.
pub open spec fn clamp_spec(v: int, lo: int, hi: int) -> int {
    if v < lo {
        lo
    } else if v > hi {
        hi
    } else {
        v
    }
}

/// The affine transform on one axis before clamping: the slope is
/// `span / (2 * offset)` and the origin lands on `extent / 2`.
pub open spec fn axis_raw_spec(extent: int, span: int, offset: int, origin: int, sample: int) -> int {
    extent / 2 + quot_toward_zero(span * (sample - origin), 2 * offset)
}

/// The transform on one axis, clamped to `[0, extent]`.
pub open spec fn map_axis_spec(extent: int, span: int, offset: int, origin: int, sample: int) -> int {
    clamp_spec(axis_raw_spec(extent, span, offset, origin, sample), 0, extent)
}

/// Screen position of a landmark `sample` for the reference `origin`.
/// Both slopes are taken from the screen width.
pub open spec fn map_spec(origin: Point, sample: Point) -> Point {
    Point {
        x: map_axis_spec(
            SCREEN_WIDTH as int,
            SCREEN_WIDTH as int,
            OFFSET_X as int,
            origin.x as int,
            sample.x as int,
        ) as i32,
        y: map_axis_spec(
            SCREEN_HEIGHT as int,
            SCREEN_WIDTH as int,
            OFFSET_Y as int,
            origin.y as int,
            sample.y as int,
        ) as i32,
    }
}

/// Maps one landmark coordinate to a clamped screen coordinate.
pub fn map_axis(extent: i32, span: i32, offset: i32, origin: i32, sample: i32) -> (r: i32)
    requires
        extent >= 0,
        span >= 0,
        offset != 0,
    ensures
        r == map_axis_spec(extent as int, span as int, offset as int, origin as int, sample as int),
        0 <= r <= extent,
{
    let travel: u64 = gap(sample, origin);
    let reach: u64 = 2 * gap(offset, 0);
    let toward_low: bool = (sample < origin) != (offset < 0);
    let width: u64 = span as u64;
    proof {
        assert(0 <= width * travel <= 0x7FFF_FFFF * 0xFFFF_FFFF) by (nonlinear_arith)
            requires
                0 <= width <= 0x7FFF_FFFF,
                0 <= travel <= 0xFFFF_FFFF,
        ;
    }
    let shift: u64 = (width * travel) / reach;
    let half: u64 = (extent as u64) / 2;
    proof {
        let n: int = span * (sample - origin);
        assert(magnitude(n) == width * travel) by (nonlinear_arith)
            requires
                n == span * (sample - origin),
                span >= 0,
                width == span,
                travel == magnitude(sample - origin),
        ;
        assert(sample >= origin ==> n >= 0) by (nonlinear_arith)
            requires
                n == span * (sample - origin),
                span >= 0,
        ;
        assert(sample < origin ==> n <= 0) by (nonlinear_arith)
            requires
                n == span * (sample - origin),
                span >= 0,
        ;
    }
    if toward_low {
        if shift >= half {
            0
        } else {
            (half - shift) as i32
        }
    } else {
        if shift > extent as u64 - half {
            extent
        } else {
            (half + shift) as i32
        }
    }
}

/// The reference landmark of one round, and the transform built on it.
#[derive(Clone, Copy, Debug, PartialEq, Eq, Structural)]
pub struct Calibrator {
    pub origin: Point,
}

impl Calibrator {
    /// Fixes `nose` as the reference position of a round.
    pub fn capture(nose: Point) -> (c: Calibrator)
        ensures
            c.origin == nose,
    {
        Calibrator { origin: nose }
    }

    /// Screen position of the landmark `sample`.
    pub fn map(&self, sample: Point) -> (p: Point)
        ensures
            p == map_spec(self.origin, sample),
            p.x == map_axis_spec(
                SCREEN_WIDTH as int,
                SCREEN_WIDTH as int,
                OFFSET_X as int,
                self.origin.x as int,
                sample.x as int,
            ),
            p.y == map_axis_spec(
                SCREEN_HEIGHT as int,
                SCREEN_WIDTH as int,
                OFFSET_Y as int,
                self.origin.y as int,
                sample.y as int,
            ),
            p.within_closed(SCREEN_WIDTH as int, SCREEN_HEIGHT as int),
    {
        Point {
            x: map_axis(SCREEN_WIDTH, SCREEN_WIDTH, OFFSET_X, self.origin.x, sample.x),
            y: map_axis(SCREEN_HEIGHT, SCREEN_WIDTH, OFFSET_Y, self.origin.y, sample.y),
        }
    }
}

/// The mapped position always lies on the screen, whatever the reference
/// and the sample are.
pub proof fn law_map_within_screen(origin: Point, sample: Point)
    ensures
        map_spec(origin, sample).within_closed(SCREEN_WIDTH as int, SCREEN_HEIGHT as int),
{
}

/// Mapping is a function of the reference and the sample alone: equal
/// inputs give equal positions.
pub proof fn law_map_deterministic(origin_a: Point, sample_a: Point, origin_b: Point, sample_b: Point)
    requires
        origin_a == origin_b,
        sample_a == sample_b,
    ensures
        map_spec(origin_a, sample_a) == map_spec(origin_b, sample_b),
{
}

/// A sample at the reference position maps to the exact centre of the
/// screen.
pub proof fn law_origin_maps_to_centre(origin: Point)
    ensures
        map_spec(origin, origin).x == SCREEN_WIDTH / 2,
        map_spec(origin, origin).y == SCREEN_HEIGHT / 2,
{
}

} // verus!

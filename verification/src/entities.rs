use vstd::prelude::*;
use bracket_lib::random::RandomNumberGenerator;
use crate::calibration::{SCREEN_HEIGHT, SCREEN_WIDTH};
use crate::geometry::Point;
use crate::random::draw_between;

verus! {

/// Largest squared distance, in square units, at which the player collects
/// the target: ten square steps.
pub const HIT_THRESHOLD: u128 = 10_000_000_000_000;

/// Whether a player at `player` collects a target at `food`.
pub open spec fn hits(player: Point, food: Point) -> bool {
    player.dist_sq_spec(food) <= HIT_THRESHOLD
}

/// The marker steered by the player's nose.
#[derive(Clone, Copy, Debug, PartialEq, Eq, Structural)]
pub struct Player {
    pub pos: Point,
}

impl Player {
    pub fn new(pos: Point) -> (p: Player)
        ensures
            p.pos == pos,
    {
        Player { pos }
    }

    pub fn move_(&mut self, pos: Point)
        ensures
            final(self).pos == pos,
    {
        self.pos = pos;
    }

    /// Whether the player is close enough to `food` to collect it.
    pub fn reaches(&self, food: &Food) -> (hit: bool)
        ensures
            hit == hits(self.pos, food.pos),
    {
        self.pos.dist_sq(&food.pos) <= HIT_THRESHOLD
    }
}

/// The target to collect.
#[derive(Clone, Copy, Debug, PartialEq, Eq, Structural)]
pub struct Food {
    pub pos: Point,
}

impl Food {
    pub fn new(pos: Point) -> (f: Food)
        ensures
            f.pos == pos,
    {
        Food { pos }
    }

    /// A target at a position drawn from `[0, width) x [0, height)`.
    /// The horizontal coordinate is drawn first.
    pub fn respawn(rng: &mut RandomNumberGenerator) -> (f: Food)
        ensures
            f.pos.within_half_open(SCREEN_WIDTH as int, SCREEN_HEIGHT as int),
    {
        let x: i32 = draw_between(rng, 0, SCREEN_WIDTH);
        let y: i32 = draw_between(rng, 0, SCREEN_HEIGHT);
        Food::new(Point::new(x, y))
    }
}

/// One detection of the face: three landmark positions in landmark units.
#[derive(Clone, Copy, Debug, PartialEq, Eq, Structural)]
pub struct FaceLandMarks {
    pub nose: Point,
    pub bottom_lip: Point,
    pub upper_lip: Point,
}

impl FaceLandMarks {
    /// All three landmarks at the zero point.
    pub fn default() -> (m: FaceLandMarks)
        ensures
            m.nose == (Point { x: 0, y: 0 }),
            m.bottom_lip == (Point { x: 0, y: 0 }),
            m.upper_lip == (Point { x: 0, y: 0 }),
    {
        FaceLandMarks { nose: Point::zero(), bottom_lip: Point::zero(), upper_lip: Point::zero() }
    }

    /// Squared distance between the two lips, in square units.
    pub fn mouth_height(&self) -> (h: u128)
        ensures
            h == self.upper_lip.dist_sq_spec(self.bottom_lip),
    {
        self.upper_lip.dist_sq(&self.bottom_lip)
    }
}

} // verus!

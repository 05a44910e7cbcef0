use vstd::prelude::*;
use bracket_lib::random::RandomNumberGenerator;
use crate::calibration::{map_spec, Calibrator, SCREEN_HEIGHT, SCREEN_WIDTH};
use crate::entities::{hits, FaceLandMarks, Food, Player};
use crate::geometry::Point;

verus! {

/// Horizontal position of the player when a round starts.
pub const PLAYER_START_X: i32 = 25_000_000;

/// Vertical position of the player when a round starts.
pub const PLAYER_START_Y: i32 = 25_000_000;

/// Horizontal position of the target before the first round.
pub const FOOD_START_X: i32 = 50_000_000;

/// Vertical position of the target before the first round.
pub const FOOD_START_Y: i32 = 25_000_000;

/// The discrete mode of the game.
#[derive(Clone, Copy, Debug, PartialEq, Eq, Structural)]
pub enum GameMode {
    Menu,
    Playing,
    End,
}

/// A key event that the game reacts to.
#[derive(Clone, Copy, Debug, PartialEq, Eq, Structural)]
pub enum Key {
    Play,
    Quit,
}

/// What one frame of play found.
#[derive(Clone, Copy, Debug, PartialEq, Eq, Structural)]
pub struct PlayReport {
    /// Whether a landmark sample was present this frame.
    pub detected: bool,
    /// Whether the player collected the target this frame.
    pub hit: bool,
}

impl PlayReport {
    /// The hint to show for this frame: a notice when no landmark was found.
    pub fn hint(&self) -> (text: Option<&'static str>)
        ensures
            self.detected ==> text is None,
            !self.detected ==> (text matches Some(t) && t@ == "No nose found!"@),
    {
        if self.detected {
            None
        } else {
            Some("No nose found!")
        }
    }
}

/// What the host has to do or show after a tick.
#[derive(Clone, Copy, Debug, PartialEq, Eq, Structural)]
pub enum Outcome {
    /// Nothing happened.
    Idle,
    /// The host is asked to quit.
    QuitRequested,
    /// A round was asked for, but no reference sample was at hand: the host
    /// polls the detector and asks again.
    AwaitingReference,
    /// A new round has begun.
    RoundStarted,
    /// A frame of play ran.
    Frame(PlayReport),
}

/// The whole game state, owned by the host's frame loop.
#[derive(Clone, Copy, Debug, PartialEq, Eq, Structural)]
pub struct State {
    pub player: Player,
    pub food: Food,
    pub mode: GameMode,
    pub score: u64,
    pub face_landmarks_ref: FaceLandMarks,
}

impl State {
    /// Player on the screen, target strictly inside it.
    pub open spec fn wf(self) -> bool {
        &&& self.player.pos.within_closed(SCREEN_WIDTH as int, SCREEN_HEIGHT as int)
        &&& self.food.pos.within_half_open(SCREEN_WIDTH as int, SCREEN_HEIGHT as int)
    }

    /// Where the player stands after a frame with the given sample: the
    /// mapped nose position, or the old position when nothing was detected.
    pub open spec fn tracked_pos(self, sample: Option<FaceLandMarks>) -> Point {
        match sample {
            Some(marks) => map_spec(self.face_landmarks_ref.nose, marks.nose),
            None => self.player.pos,
        }
    }

    /// `self` is the first state of a round calibrated on `reference`.
    pub open spec fn starts_round(self, reference: FaceLandMarks) -> bool {
        &&& self.wf()
        &&& self.mode == GameMode::Playing
        &&& self.score == 0
        &&& self.player.pos == (Point { x: PLAYER_START_X, y: PLAYER_START_Y })
        &&& self.face_landmarks_ref == reference
    }

    /// `after` and `report` are a possible result of one frame of play on
    /// `self` with `sample`. The only freedom is where the target reappears
    /// after a hit.
    pub open spec fn play_step(self, after: State, sample: Option<FaceLandMarks>, report: PlayReport) -> bool {
        &&& after.wf()
        &&& after.mode == self.mode
        &&& after.face_landmarks_ref == self.face_landmarks_ref
        &&& after.player.pos == self.tracked_pos(sample)
        &&& report.detected == sample.is_some()
        &&& report.hit == hits(after.player.pos, self.food.pos)
        &&& report.hit ==> after.score == self.score + 1
        &&& !report.hit ==> after.score == self.score && after.food == self.food
    }

    /// `after` and `outcome` are a possible result of a tick outside play on
    /// `self`, with the key pressed and the reference sample at hand.
    pub open spec fn menu_step(
        self,
        after: State,
        key: Option<Key>,
        reference: Option<FaceLandMarks>,
        outcome: Outcome,
    ) -> bool {
        match (key, reference) {
            (Some(Key::Play), Some(marks)) => after.starts_round(marks) && outcome
                == Outcome::RoundStarted,
            (Some(Key::Play), None) => after == self && outcome == Outcome::AwaitingReference,
            (Some(Key::Quit), _) => after == self && outcome == Outcome::QuitRequested,
            (None, _) => after == self && outcome == Outcome::Idle,
        }
    }

    /// The state before the first round: the menu, no points.
    pub fn new() -> (s: State)
        ensures
            s.wf(),
            s.mode == GameMode::Menu,
            s.score == 0,
            s.player.pos == (Point { x: PLAYER_START_X, y: PLAYER_START_Y }),
            s.food.pos == (Point { x: FOOD_START_X, y: FOOD_START_Y }),
            s.face_landmarks_ref.nose == (Point { x: 0, y: 0 }),
            s.face_landmarks_ref.bottom_lip == (Point { x: 0, y: 0 }),
            s.face_landmarks_ref.upper_lip == (Point { x: 0, y: 0 }),
    {
        State {
            player: Player::new(Point::new(PLAYER_START_X, PLAYER_START_Y)),
            food: Food::new(Point::new(FOOD_START_X, FOOD_START_Y)),
            mode: GameMode::Menu,
            score: 0,
            face_landmarks_ref: FaceLandMarks::default(),
        }
    }

    /// Begins a round calibrated on `reference`: the player returns to the
    /// start, the target reappears, the score is zero.
    pub fn restart(&mut self, reference: FaceLandMarks, rng: &mut RandomNumberGenerator)
        ensures
            final(self).starts_round(reference),
            final(self).score == 0,
    {
        self.player = Player::new(Point::new(PLAYER_START_X, PLAYER_START_Y));
        self.food = Food::respawn(rng);
        self.mode = GameMode::Playing;
        self.score = 0;
        self.face_landmarks_ref = reference;
    }

    /// Reacts to a key outside play. A round starts only when the key asks
    /// for it and a reference sample is at hand.
    fn on_key(
        &mut self,
        key: Option<Key>,
        reference: Option<FaceLandMarks>,
        rng: &mut RandomNumberGenerator,
    ) -> (outcome: Outcome)
        ensures
            old(self).menu_step(*final(self), key, reference, outcome),
    {
        match key {
            Some(Key::Play) => match reference {
                Some(marks) => {
                    self.restart(marks, rng);
                    Outcome::RoundStarted
                },
                None => Outcome::AwaitingReference,
            },
            Some(Key::Quit) => Outcome::QuitRequested,
            None => Outcome::Idle,
        }
    }

    /// One tick of the opening menu.
    pub fn main_menu(
        &mut self,
        key: Option<Key>,
        reference: Option<FaceLandMarks>,
        rng: &mut RandomNumberGenerator,
    ) -> (outcome: Outcome)
        ensures
            old(self).menu_step(*final(self), key, reference, outcome),
    {
        self.on_key(key, reference, rng)
    }

    /// One tick of the screen shown after a round.
    pub fn dead(
        &mut self,
        key: Option<Key>,
        reference: Option<FaceLandMarks>,
        rng: &mut RandomNumberGenerator,
    ) -> (outcome: Outcome)
        ensures
            old(self).menu_step(*final(self), key, reference, outcome),
    {
        self.on_key(key, reference, rng)
    }

    /// Screen position of a nose landmark under this round's calibration.
    pub fn get_nose_game_pos(&self, nose_image_pos: Point) -> (p: Point)
        ensures
            p == map_spec(self.face_landmarks_ref.nose, nose_image_pos),
            p.within_closed(SCREEN_WIDTH as int, SCREEN_HEIGHT as int),
    {
        Calibrator::capture(self.face_landmarks_ref.nose).map(nose_image_pos)
    }

    /// One frame of play. With a sample the player follows the nose; without
    /// one the player stays. Then a player close enough to the target scores
    /// and the target reappears elsewhere.
    pub fn play(&mut self, sample: Option<FaceLandMarks>, rng: &mut RandomNumberGenerator) -> (report:
        PlayReport)
        requires
            old(self).wf(),
            old(self).score < u64::MAX,
        ensures
            old(self).play_step(*final(self), sample, report),
    {
        let detected: bool = match sample {
            Some(marks) => {
                let pos = self.get_nose_game_pos(marks.nose);
                self.player.move_(pos);
                true
            },
            None => false,
        };
        let hit: bool = self.player.reaches(&self.food);
        if hit {
            self.score = self.score + 1;
            self.food = Food::respawn(rng);
        }
        PlayReport { detected, hit }
    }

    /// One tick of the state machine. `key` is this frame's key event.
    /// `sample` is this frame's detection: during play it moves the player,
    /// outside play it serves as the reference when a round is asked for.
    pub fn tick(
        &mut self,
        key: Option<Key>,
        sample: Option<FaceLandMarks>,
        rng: &mut RandomNumberGenerator,
    ) -> (outcome: Outcome)
        requires
            old(self).mode == GameMode::Playing ==> old(self).wf() && old(self).score < u64::MAX,
        ensures
            old(self).mode == GameMode::Playing ==> (outcome matches Outcome::Frame(report)
                && old(self).play_step(*final(self), sample, report)),
            old(self).mode != GameMode::Playing ==> old(self).menu_step(
                *final(self),
                key,
                sample,
                outcome,
            ),
    {
        match self.mode {
            GameMode::Menu => self.main_menu(key, sample, rng),
            GameMode::End => self.dead(key, sample, rng),
            GameMode::Playing => {
                let report = self.play(sample, rng);
                Outcome::Frame(report)
            },
        }
    }
}

/// A frame without a sample leaves the player where it was. Unless the
/// player already stands on the target, it leaves the score and the target
/// untouched too.
pub proof fn law_skip_frame(before: State, after: State, report: PlayReport)
    requires
        before.play_step(after, None, report),
    ensures
        after.player == before.player,
        !report.detected,
        !hits(before.player.pos, before.food.pos) ==> after.score == before.score && after.food
            == before.food,
{
}

/// Within play the score never goes down, and it rises by one exactly on a
/// hit.
pub proof fn law_score_monotone(
    before: State,
    after: State,
    sample: Option<FaceLandMarks>,
    report: PlayReport,
)
    requires
        before.play_step(after, sample, report),
    ensures
        after.score >= before.score,
        after.score == before.score + 1 <==> report.hit,
{
}

/// A round starts with no points, whatever the state before held.
pub proof fn law_round_isolation(
    before: State,
    after: State,
    reference: FaceLandMarks,
    outcome: Outcome,
)
    requires
        before.menu_step(after, Some(Key::Play), Some(reference), outcome),
    ensures
        after.score == 0,
        after.mode == GameMode::Playing,
{
}

/// A quit key outside play changes nothing in the state: it only asks the
/// host to quit.
pub proof fn law_quit_changes_nothing(
    before: State,
    after: State,
    reference: Option<FaceLandMarks>,
    outcome: Outcome,
)
    requires
        before.menu_step(after, Some(Key::Quit), reference, outcome),
    ensures
        after == before,
        outcome == Outcome::QuitRequested,
{
}

} // verus!

//! The level generator: a ring-shaped level whose outer rim is a circle and
//! whose inner wall is a circle roughened by random elevation.
//!
//! Boundaries are kept in polar form, one sample every two degrees. Turning
//! samples into coordinates needs trigonometry and is left to the caller.

use crate::timer::{secs_to_nanos, Countdown, CountdownView};
use crate::units::LEVEL_BOUNDS_RADIUS;
use vstd::prelude::*;

verus! {

/// Number of angular steps around each boundary. A boundary has one sample
/// more than steps: the first and the last sample point the same way.
pub const CIRCLE_STEPS: u32 = 180;

/// Degrees between two neighbouring samples.
pub const DEGREES_PER_STEP: u32 = 2;

/// Mean height of the inner wall above the inside of the rim.
pub const ELEVATION_MEAN: i32 = 1_600;

/// Standard deviation of the height of the inner wall, for drawing it.
pub const ELEVATION_DEVIATION: i32 = 86;

/// Furthest that the height of the inner wall strays from its mean. The
/// wall neither rises above the rim nor sinks further below its mean.
pub const MAX_ELEVATION_DEVIATION: i32 = 1_600;

/// Least height of the inner wall.
pub const MIN_ELEVATION: i32 = ELEVATION_MEAN - MAX_ELEVATION_DEVIATION;

/// Greatest height of the inner wall.
pub const MAX_ELEVATION: i32 = ELEVATION_MEAN + MAX_ELEVATION_DEVIATION;

/// Radius of the inner wall where it is not roughened.
pub const NOMINAL_INNER_RADIUS: i64 = 26_400;

/// One sample of a boundary.
#[derive(Clone, Copy, Debug, PartialEq, Eq, Structural)]
pub struct PolarPoint {
    pub angle_degrees: u32,
    /// Distance from the gravity source in millimetres.
    pub radius: i64,
}

/// The number of the level that follows level `current`.
pub open spec fn spec_next_level(current: nat) -> nat {
    if current < u32::MAX {
        current + 1
    } else {
        u32::MAX as nat
    }
}

/// Seconds allowed for reaching the goal of level `level`: the higher the
/// level, the coarser the budget.
pub open spec fn spec_countdown_secs(level: nat) -> nat {
    if level <= 4 {
        60
    } else if level <= 9 {
        40
    } else if level <= 25 {
        30
    } else {
        20
    }
}

/// A drawn height held within the greatest deviation from the mean.
pub open spec fn spec_bounded_height(draw: i32) -> int {
    if draw < MIN_ELEVATION {
        MIN_ELEVATION as int
    } else if draw > MAX_ELEVATION {
        MAX_ELEVATION as int
    } else {
        draw as int
    }
}

/// Height of the inner wall at sample `step`. The first and the last sample
/// are pinned to the mean so that the wall closes without a seam; every
/// other sample takes its own draw, `draws[step - 1]`, held within the
/// greatest deviation, and the mean where the draws run out.
pub open spec fn spec_elevation_height(step: int, draws: Seq<i32>) -> int {
    if 0 < step < CIRCLE_STEPS && step - 1 < draws.len() {
        spec_bounded_height(draws[step - 1])
    } else {
        ELEVATION_MEAN as int
    }
}

/// Sample `step` of the inner wall.
pub open spec fn spec_elevation_vertex(step: int, draws: Seq<i32>) -> PolarPoint {
    PolarPoint {
        angle_degrees: (step * DEGREES_PER_STEP) as u32,
        radius: (LEVEL_BOUNDS_RADIUS - spec_elevation_height(step, draws)) as i64,
    }
}

/// Sample `step` of the outer rim.
pub open spec fn spec_rim_vertex(step: int) -> PolarPoint {
    PolarPoint { angle_degrees: (step * DEGREES_PER_STEP) as u32, radius: LEVEL_BOUNDS_RADIUS }
}

/// The inner wall for the given draws.
pub open spec fn spec_elevation(draws: Seq<i32>) -> Seq<PolarPoint> {
    Seq::new((CIRCLE_STEPS + 1) as nat, |step: int| spec_elevation_vertex(step, draws))
}

/// The outer rim.
pub open spec fn spec_rim() -> Seq<PolarPoint> {
    Seq::new((CIRCLE_STEPS + 1) as nat, |step: int| spec_rim_vertex(step))
}

/// What a [`GameLevel`] stands for.
pub struct GameLevelView {
    /// Number of the level, from one.
    pub n: nat,
    pub countdown: CountdownView,
    /// Outline of the filled terrain: the inner wall, then the outer rim.
    pub terrain: Seq<PolarPoint>,
    /// The inner wall, which bodies collide with.
    pub elevation: Seq<PolarPoint>,
}

impl GameLevelView {
    /// The level that follows level `current`, built from `draws`.
    pub open spec fn generated(current: nat, draws: Seq<i32>) -> GameLevelView {
        GameLevelView {
            n: spec_next_level(current),
            countdown: CountdownView::fresh(
                secs_to_nanos(spec_countdown_secs(spec_next_level(current))),
            ),
            terrain: spec_elevation(draws) + spec_rim(),
            elevation: spec_elevation(draws),
        }
    }

    /// Both boundaries have the same samples at the same angles, the
    /// terrain is the inner wall followed by a true circle, every sample
    /// of the inner wall lies within the greatest deviation of the nominal
    /// radius, and the wall closes at the nominal radius exactly.
    pub open spec fn wf(self) -> bool {
        &&& self.n >= 1
        &&& self.countdown.elapsed <= self.countdown.duration
        &&& self.elevation.len() == CIRCLE_STEPS + 1
        &&& self.terrain == self.elevation + spec_rim()
        &&& forall|step: int|
            0 <= step <= CIRCLE_STEPS ==> (#[trigger] self.elevation[step]).angle_degrees == step
                * DEGREES_PER_STEP
        &&& forall|step: int|
            0 <= step <= CIRCLE_STEPS ==> NOMINAL_INNER_RADIUS - MAX_ELEVATION_DEVIATION <= (
            #[trigger] self.elevation[step]).radius <= NOMINAL_INNER_RADIUS
                + MAX_ELEVATION_DEVIATION
        &&& self.elevation[0].radius == NOMINAL_INNER_RADIUS
        &&& self.elevation[CIRCLE_STEPS as int].radius == NOMINAL_INNER_RADIUS
    }
}

/// One level of the game.
#[derive(Debug)]
pub struct GameLevel {
    n: u32,
    countdown_to_game_over: Countdown,
    terrain_vertices: Vec<PolarPoint>,
    elevation_vertices: Vec<PolarPoint>,
}

impl View for GameLevel {
    type V = GameLevelView;

    closed spec fn view(&self) -> GameLevelView {
        GameLevelView {
            n: self.n as nat,
            countdown: self.countdown_to_game_over@,
            terrain: self.terrain_vertices@,
            elevation: self.elevation_vertices@,
        }
    }
}

/// Seam closure: whatever the draws, the first and the last sample of the
/// inner wall lie at the nominal inner radius, and they point the same way.
pub proof fn lemma_seam_closure(draws: Seq<i32>)
    ensures
        spec_elevation(draws).len() == CIRCLE_STEPS + 1,
        spec_elevation(draws)[0].radius == NOMINAL_INNER_RADIUS,
        spec_elevation(draws)[CIRCLE_STEPS as int].radius == NOMINAL_INNER_RADIUS,
        spec_elevation(draws)[0].angle_degrees == 0,
        spec_elevation(draws)[CIRCLE_STEPS as int].angle_degrees == 360,
{
}

/// Every generated level is well formed.
pub proof fn lemma_generated_wf(current: nat, draws: Seq<i32>)
    ensures
        GameLevelView::generated(current, draws).wf(),
{
    lemma_seam_closure(draws);
    let level = GameLevelView::generated(current, draws);
    assert forall|step: int| 0 <= step <= CIRCLE_STEPS implies NOMINAL_INNER_RADIUS
        - MAX_ELEVATION_DEVIATION <= (#[trigger] level.elevation[step]).radius
        <= NOMINAL_INNER_RADIUS + MAX_ELEVATION_DEVIATION by {
        lemma_bounded_deviation(draws, 0, step);
    }
}

/// Away from the seam, each sample of the inner wall whose draw lies
/// within the greatest deviation lies below the rim by exactly its draw.
pub proof fn lemma_elevation_follows_draws(draws: Seq<i32>, step: int)
    requires
        0 < step < CIRCLE_STEPS,
        step - 1 < draws.len(),
        MIN_ELEVATION <= draws[step - 1] <= MAX_ELEVATION,
    ensures
        spec_elevation(draws)[step].radius == LEVEL_BOUNDS_RADIUS - draws[step - 1],
{
}

/// Bounded deviation: whatever the draws, every sample of the inner wall
/// lies within the greatest deviation of the nominal inner radius, between
/// the gravity source and the rim. Where every draw lies within a smaller
/// `deviation` of the mean height, so does every sample.
pub proof fn lemma_bounded_deviation(draws: Seq<i32>, deviation: nat, step: int)
    requires
        0 <= step <= CIRCLE_STEPS,
    ensures
        NOMINAL_INNER_RADIUS - MAX_ELEVATION_DEVIATION <= spec_elevation(draws)[step].radius
            <= NOMINAL_INNER_RADIUS + MAX_ELEVATION_DEVIATION,
        0 < spec_elevation(draws)[step].radius <= LEVEL_BOUNDS_RADIUS,
        (forall|i: int|
            0 <= i < draws.len() ==> ELEVATION_MEAN - deviation <= #[trigger] draws[i]
                <= ELEVATION_MEAN + deviation) ==> NOMINAL_INNER_RADIUS - deviation
            <= spec_elevation(draws)[step].radius <= NOMINAL_INNER_RADIUS + deviation,
{
    if 0 < step < CIRCLE_STEPS && step - 1 < draws.len() {
        let draw = draws[step - 1];
        assert(MIN_ELEVATION <= spec_bounded_height(draw) <= MAX_ELEVATION);
    }
}

/// The number of the level that follows level `current`.
pub fn next_level(current: u32) -> (next: u32)
    ensures
        next == spec_next_level(current as nat),
        next >= 1,
{
    if current < u32::MAX {
        current + 1
    } else {
        u32::MAX
    }
}

/// Seconds allowed for reaching the goal of level `level`.
pub fn countdown_secs(level: u32) -> (secs: u64)
    ensures
        secs == spec_countdown_secs(level as nat),
{
    if level <= 4 {
        60
    } else if level <= 9 {
        40
    } else if level <= 25 {
        30
    } else {
        20
    }
}

/// Holds a drawn height within the greatest deviation from the mean.
pub fn bounded_height(draw: i32) -> (height: i32)
    ensures
        height == spec_bounded_height(draw),
        MIN_ELEVATION <= height <= MAX_ELEVATION,
{
    if draw < MIN_ELEVATION {
        MIN_ELEVATION
    } else if draw > MAX_ELEVATION {
        MAX_ELEVATION
    } else {
        draw
    }
}

/// Builds the inner wall from the draws.
pub fn elevation_vertices(draws: &Vec<i32>) -> (wall: Vec<PolarPoint>)
    ensures
        wall@ == spec_elevation(draws@),
{
    let mut wall: Vec<PolarPoint> = Vec::new();
    let mut step: u32 = 0;
    while step <= CIRCLE_STEPS
        invariant
            step <= CIRCLE_STEPS + 1,
            wall@.len() == step,
            forall|i: int| 0 <= i < step ==> #[trigger] wall@[i] == spec_elevation_vertex(i, draws@),
        decreases CIRCLE_STEPS + 1 - step,
    {
        let height: i32 = if 0 < step && step < CIRCLE_STEPS && ((step - 1) as usize)
            < draws.len() {
            bounded_height(draws[(step - 1) as usize])
        } else {
            ELEVATION_MEAN
        };
        wall.push(
            PolarPoint {
                angle_degrees: step * DEGREES_PER_STEP,
                radius: LEVEL_BOUNDS_RADIUS - height as i64,
            },
        );
        step = step + 1;
    }
    assert(wall@ =~= spec_elevation(draws@));
    wall
}

/// Builds the outer rim.
pub fn rim_vertices() -> (rim: Vec<PolarPoint>)
    ensures
        rim@ == spec_rim(),
{
    let mut rim: Vec<PolarPoint> = Vec::new();
    let mut step: u32 = 0;
    while step <= CIRCLE_STEPS
        invariant
            step <= CIRCLE_STEPS + 1,
            rim@.len() == step,
            forall|i: int| 0 <= i < step ==> #[trigger] rim@[i] == spec_rim_vertex(i),
        decreases CIRCLE_STEPS + 1 - step,
    {
        rim.push(PolarPoint { angle_degrees: step * DEGREES_PER_STEP, radius: LEVEL_BOUNDS_RADIUS });
        step = step + 1;
    }
    assert(rim@ =~= spec_rim());
    rim
}

/// Generates the level that follows level `current_level_value`. `draws`
/// holds the random heights of the inner wall, one for each sample between
/// the first and the last; each is held within the greatest deviation from
/// the mean height.
pub fn create_game_level(current_level_value: u32, draws: &Vec<i32>) -> (level: GameLevel)
    ensures
        level@ == GameLevelView::generated(current_level_value as nat, draws@),
        level@.wf(),
        level@.elevation[0].radius == NOMINAL_INNER_RADIUS,
        level@.elevation[CIRCLE_STEPS as int].radius == NOMINAL_INNER_RADIUS,
{
    let next_level_n: u32 = next_level(current_level_value);
    let elevation: Vec<PolarPoint> = elevation_vertices(draws);
    let rim: Vec<PolarPoint> = rim_vertices();
    let mut terrain: Vec<PolarPoint> = Vec::new();
    let mut copied: usize = 0;
    while copied < elevation.len()
        invariant
            copied <= elevation@.len(),
            terrain@ == elevation@.take(copied as int),
        decreases elevation.len() - copied,
    {
        terrain.push(elevation[copied]);
        copied = copied + 1;
        assert(terrain@ =~= elevation@.take(copied as int));
    }
    assert(elevation@.take(elevation@.len() as int) =~= elevation@);
    copied = 0;
    while copied < rim.len()
        invariant
            copied <= rim@.len(),
            terrain@ == elevation@ + rim@.take(copied as int),
        decreases rim.len() - copied,
    {
        terrain.push(rim[copied]);
        copied = copied + 1;
        assert(terrain@ =~= elevation@ + rim@.take(copied as int));
    }
    assert(rim@.take(rim@.len() as int) =~= rim@);
    proof {
        lemma_generated_wf(current_level_value as nat, draws@);
    }
    GameLevel {
        n: next_level_n,
        countdown_to_game_over: Countdown::from_secs(countdown_secs(next_level_n)),
        terrain_vertices: terrain,
        elevation_vertices: elevation,
    }
}

impl GameLevel {
    #[verifier::type_invariant]
    closed spec fn well_formed(self) -> bool {
        self@.wf()
    }

    /// Number of the level, from one.
    pub fn n(&self) -> (n: u32)
        ensures
            n == self@.n,
            n >= 1,
    {
        proof {
            use_type_invariant(self);
        }
        self.n
    }

    /// The countdown to the end of the game.
    pub fn countdown(&self) -> (timer: Countdown)
        ensures
            timer@ == self@.countdown,
    {
        self.countdown_to_game_over
    }

    /// Outline of the filled terrain: the inner wall, then the outer rim.
    pub fn terrain_vertices(&self) -> (outline: &Vec<PolarPoint>)
        ensures
            outline@ == self@.terrain,
            outline@ == self@.elevation + spec_rim(),
    {
        proof {
            use_type_invariant(self);
        }
        &self.terrain_vertices
    }

    /// The inner wall, which bodies collide with.
    pub fn elevation_vertices(&self) -> (wall: &Vec<PolarPoint>)
        ensures
            wall@ == self@.elevation,
            wall@.len() == CIRCLE_STEPS + 1,
            wall@[0].radius == NOMINAL_INNER_RADIUS,
            wall@[CIRCLE_STEPS as int].radius == NOMINAL_INNER_RADIUS,
            forall|step: int|
                0 <= step <= CIRCLE_STEPS ==> NOMINAL_INNER_RADIUS - MAX_ELEVATION_DEVIATION <= (
                #[trigger] wall@[step]).radius <= NOMINAL_INNER_RADIUS + MAX_ELEVATION_DEVIATION,
    {
        proof {
            use_type_invariant(self);
        }
        &self.elevation_vertices
    }

    /// Runs the countdown for `delta` nanoseconds.
    pub fn tick_countdown(&mut self, delta: u64)
        ensures
            final(self)@ == (GameLevelView {
                countdown: old(self)@.countdown.after(delta as nat),
                ..old(self)@
            }),
    {
        proof {
            use_type_invariant(&*self);
        }
        let mut timer: Countdown = self.countdown_to_game_over;
        timer.tick(delta);
        self.countdown_to_game_over = timer;
    }
}

} // verus!

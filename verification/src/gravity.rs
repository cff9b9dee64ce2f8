//! The central gravity field: a signed scalar between minus one and one,
//! and the force it exerts on a body.
//!
//! The sign of the scalar alone decides the direction of the force: a
//! positive scalar pushes bodies away from the centre, a negative one pulls
//! them in. The magnitude falls off with the inverse of the distance.

use crate::units::{lemma_square_bounds, Point, MM_PER_METER, UNIT};
use vstd::prelude::*;

verus! {

/// Upper bound of the gravity scalar, in billionths.
pub const MAX_GRAVITY_FORCE: i64 = 1_000_000_000;

/// Lower bound of the gravity scalar, in billionths.
pub const MIN_GRAVITY_FORCE: i64 = -1_000_000_000;

/// The gravity scalar at the start of a level.
pub const INITIAL_GRAVITY_FORCE: i64 = MAX_GRAVITY_FORCE;

/// Whether the scalar cycles by itself at the start of a level.
pub const GRAVITY_AUTO_CYCLE_ENABLED_DEFAULT: bool = false;

/// Force, in force units, on a body one metre from the centre under a
/// scalar of one.
pub const GRAVITY_FORCE_SCALE: i64 = 1_875;

/// How far the scalar moves in one tick under manual control: 0.04.
pub const MANUAL_FORCE_STEP: i64 = 40_000_000;

/// The settings of the gravity field, as they are checked before the
/// simulation starts.
#[derive(Clone, Copy, Debug, PartialEq, Eq, Structural)]
pub struct GravityConfig {
    pub min_force: i64,
    pub max_force: i64,
    pub initial_force: i64,
    pub force_scale: i64,
}

/// Why a configuration is refused.
#[derive(Clone, Copy, Debug, PartialEq, Eq, Structural)]
pub enum ConfigError {
    /// The upper bound of the scalar is not above the lower bound.
    BoundsInverted,
    /// The force scale is not positive.
    ScaleNotPositive,
    /// The initial scalar lies outside the bounds.
    InitialOutOfBounds,
}

impl GravityConfig {
    /// The settings that the simulation runs with.
    pub open spec fn spec_standard() -> GravityConfig {
        GravityConfig {
            min_force: MIN_GRAVITY_FORCE,
            max_force: MAX_GRAVITY_FORCE,
            initial_force: INITIAL_GRAVITY_FORCE,
            force_scale: GRAVITY_FORCE_SCALE,
        }
    }

    /// The first requirement that the configuration breaks, if any.
    pub open spec fn spec_validate(self) -> Result<(), ConfigError> {
        if !(self.max_force > self.min_force) {
            Err(ConfigError::BoundsInverted)
        } else if !(self.force_scale > 0) {
            Err(ConfigError::ScaleNotPositive)
        } else if !(self.min_force <= self.initial_force <= self.max_force) {
            Err(ConfigError::InitialOutOfBounds)
        } else {
            Ok(())
        }
    }

    pub fn standard() -> (config: GravityConfig)
        ensures
            config == GravityConfig::spec_standard(),
            config.spec_validate() is Ok,
    {
        GravityConfig {
            min_force: MIN_GRAVITY_FORCE,
            max_force: MAX_GRAVITY_FORCE,
            initial_force: INITIAL_GRAVITY_FORCE,
            force_scale: GRAVITY_FORCE_SCALE,
        }
    }

    /// Checks the configuration. The simulation must not start with one
    /// that is refused.
    pub fn validate(&self) -> (checked: Result<(), ConfigError>)
        ensures
            checked == self.spec_validate(),
            checked is Ok <==> self.max_force > self.min_force && self.force_scale > 0
                && self.min_force <= self.initial_force <= self.max_force,
    {
        if !(self.max_force > self.min_force) {
            Err(ConfigError::BoundsInverted)
        } else if !(self.force_scale > 0) {
            Err(ConfigError::ScaleNotPositive)
        } else if !(self.min_force <= self.initial_force && self.initial_force
            <= self.max_force) {
            Err(ConfigError::InitialOutOfBounds)
        } else {
            Ok(())
        }
    }
}

impl ConfigError {
    /// The requirement that was broken, in words.
    pub fn description(&self) -> (text: &'static str)
        ensures
            text@ == match *self {
                ConfigError::BoundsInverted => "Max gravity should be greater than min gravity"@,
                ConfigError::ScaleNotPositive => "Gravity force scale should be positive"@,
                ConfigError::InitialOutOfBounds =>
                    "Initial gravity should be within gravity force bounds"@,
            },
    {
        match self {
            ConfigError::BoundsInverted => "Max gravity should be greater than min gravity",
            ConfigError::ScaleNotPositive => "Gravity force scale should be positive",
            ConfigError::InitialOutOfBounds =>
                "Initial gravity should be within gravity force bounds",
        }
    }
}

/// The bound that the automatic cycle is heading for.
#[derive(Clone, Copy, Debug, PartialEq, Eq, Structural)]
pub enum Cycle {
    /// The scalar grows towards its upper bound.
    Rising,
    /// The scalar shrinks towards its lower bound.
    Falling,
}

/// What a [`GravitySource`] stands for.
pub struct GravityView {
    /// The gravity scalar in billionths.
    pub force: int,
    pub cycle: Cycle,
    pub auto_cycle: bool,
}

impl GravityView {
    /// The source at the start of a level.
    pub open spec fn initial() -> GravityView {
        GravityView {
            force: INITIAL_GRAVITY_FORCE as int,
            cycle: Cycle::Rising,
            auto_cycle: GRAVITY_AUTO_CYCLE_ENABLED_DEFAULT,
        }
    }

    /// The scalar lies within its bounds.
    pub open spec fn wf(self) -> bool {
        MIN_GRAVITY_FORCE <= self.force <= MAX_GRAVITY_FORCE
    }

    /// How far the scalar tries to move in a tick of `dt` nanoseconds.
    /// Cycling by itself it moves towards the bound it is heading for at
    /// half its range per second: the range spans two units, so it moves
    /// one unit per second, one billionth per nanosecond. Under manual
    /// control it moves one step down while `decrease` is asserted, else
    /// one step up while `increase` is, else it holds.
    pub open spec fn force_change(self, dt: nat, decrease: bool, increase: bool) -> int {
        if self.auto_cycle {
            match self.cycle {
                Cycle::Falling => -(dt as int),
                Cycle::Rising => dt as int,
            }
        } else if decrease {
            -(MANUAL_FORCE_STEP as int)
        } else if increase {
            MANUAL_FORCE_STEP as int
        } else {
            0
        }
    }

    /// The source after a tick. Where the scalar would reach or pass a
    /// bound it is held at the bound and the cycle turns round.
    pub open spec fn updated(self, dt: nat, decrease: bool, increase: bool) -> GravityView {
        let moved = self.force + self.force_change(dt, decrease, increase);
        if moved >= MAX_GRAVITY_FORCE {
            GravityView { force: MAX_GRAVITY_FORCE as int, cycle: Cycle::Falling, ..self }
        } else if moved <= MIN_GRAVITY_FORCE {
            GravityView { force: MIN_GRAVITY_FORCE as int, cycle: Cycle::Rising, ..self }
        } else {
            GravityView { force: moved, ..self }
        }
    }
}

/// The force on a body as an exact fraction: the force vector is
/// `(x / divisor, y / divisor)` in force units, and `divisor` is positive.
#[derive(Clone, Copy, Debug, PartialEq, Eq, Structural)]
pub struct ForceVector {
    pub x: i128,
    pub y: i128,
    pub divisor: i128,
}

/// Numerator of one component of the force on a body whose coordinate
/// along that component is `coordinate`, under the scalar `force`.
pub open spec fn spec_force_numerator(force: int, coordinate: int) -> int {
    coordinate * force * (GRAVITY_FORCE_SCALE * MM_PER_METER)
}

/// Divisor of the force on a body at `position`.
pub open spec fn spec_force_divisor(position: Point) -> int {
    position.spec_norm_squared() * UNIT
}

/// The force on a body at `position` under the scalar `force`. It points
/// along the position with magnitude `GRAVITY_FORCE_SCALE * force /
/// distance`, the distance taken in metres. At the centre itself the
/// direction is undefined and there is no force.
pub open spec fn spec_force_at(force: int, position: Point) -> Option<ForceVector> {
    if position == Point::spec_origin() {
        None
    } else {
        Some(
            ForceVector {
                x: spec_force_numerator(force, position.x as int) as i128,
                y: spec_force_numerator(force, position.y as int) as i128,
                divisor: spec_force_divisor(position) as i128,
            },
        )
    }
}

/// Numerators and divisor of a force stay far inside the range of their
/// type, so that the conversions in [`spec_force_at`] lose nothing.
pub proof fn lemma_force_in_range(force: int, position: Point)
    requires
        MIN_GRAVITY_FORCE <= force <= MAX_GRAVITY_FORCE,
    ensures
        -0x4000_0000_0000_0000_0000_0000 <= spec_force_numerator(force, position.x as int)
            <= 0x4000_0000_0000_0000_0000_0000,
        -0x4000_0000_0000_0000_0000_0000 <= spec_force_numerator(force, position.y as int)
            <= 0x4000_0000_0000_0000_0000_0000,
        0 <= spec_force_divisor(position) <= 0x4000_0000_0000_0000_0000_0000,
        spec_force_divisor(position) == 0 <==> position == Point::spec_origin(),
{
    lemma_product_bounds(position.x as int, force);
    lemma_product_bounds(position.y as int, force);
    lemma_square_bounds(position.x as int, 0x8000_0000);
    lemma_square_bounds(position.y as int, 0x8000_0000);
    assert(GRAVITY_FORCE_SCALE * MM_PER_METER == 1_875_000);
    assert(spec_force_numerator(force, position.x as int) == (position.x * force) * 1_875_000);
    assert(spec_force_numerator(force, position.y as int) == (position.y * force) * 1_875_000);
}

/// Regroups the product of two scaled products.
proof fn lemma_scaled_product(p: int, a: int, q: int, b: int, c: int)
    ensures
        (p * a * c) * (q * b * c) == ((p * q) * (a * b)) * (c * c),
{
    let pa = p * a;
    let qb = q * b;
    assert((pa * c) * (qb * c) == (pa * qb) * (c * c)) by (nonlinear_arith);
    assert((p * a) * (q * b) == (p * q) * (a * b)) by (nonlinear_arith);
}

proof fn lemma_product_bounds(coordinate: int, force: int)
    requires
        -0x8000_0000 <= coordinate <= 0x8000_0000,
        MIN_GRAVITY_FORCE <= force <= MAX_GRAVITY_FORCE,
    ensures
        -0x8000_0000 * 1_000_000_000 <= coordinate * force <= 0x8000_0000 * 1_000_000_000,
{
    assert(-0x8000_0000 * 1_000_000_000 <= coordinate * force <= 0x8000_0000 * 1_000_000_000)
        by (nonlinear_arith)
        requires
            -0x8000_0000 <= coordinate <= 0x8000_0000,
            -1_000_000_000 <= force <= 1_000_000_000,
    ;
}

/// The gravity scalar never leaves its bounds. At the instant a tick would
/// carry it to or past a bound it is held at that bound and the cycle turns
/// round; otherwise it moves by the change and the cycle stays.
pub proof fn lemma_update_keeps_bounds(source: GravityView, dt: nat, decrease: bool, increase: bool)
    requires
        source.wf(),
    ensures
        source.updated(dt, decrease, increase).wf(),
        source.updated(dt, decrease, increase).auto_cycle == source.auto_cycle,
        source.force + source.force_change(dt, decrease, increase) >= MAX_GRAVITY_FORCE ==> {
            &&& source.updated(dt, decrease, increase).force == MAX_GRAVITY_FORCE
            &&& source.updated(dt, decrease, increase).cycle == Cycle::Falling
        },
        source.force + source.force_change(dt, decrease, increase) <= MIN_GRAVITY_FORCE ==> {
            &&& source.updated(dt, decrease, increase).force == MIN_GRAVITY_FORCE
            &&& source.updated(dt, decrease, increase).cycle == Cycle::Rising
        },
        MIN_GRAVITY_FORCE < source.force + source.force_change(dt, decrease, increase)
            < MAX_GRAVITY_FORCE ==> {
            &&& source.updated(dt, decrease, increase).force == source.force
                + source.force_change(dt, decrease, increase)
            &&& source.updated(dt, decrease, increase).cycle == source.cycle
        },
{
}

/// The rate of the automatic cycle: cycling by itself, the scalar moves by
/// one billionth per nanosecond towards the bound it is heading for,
/// whatever the controls say. While that keeps it strictly inside its
/// bounds, the scalar after a tick is the scalar before it plus or minus
/// the length of the tick, and the cycle stays as it is.
pub proof fn lemma_auto_cycle_rate(source: GravityView, dt: nat, decrease: bool, increase: bool)
    requires
        source.wf(),
        source.auto_cycle,
    ensures
        source.updated(dt, decrease, increase) == source.updated(dt, false, false),
        source.cycle == Cycle::Rising && source.force + dt < MAX_GRAVITY_FORCE ==> {
            &&& source.updated(dt, decrease, increase).force == source.force + dt
            &&& source.updated(dt, decrease, increase).cycle == Cycle::Rising
        },
        source.cycle == Cycle::Falling && source.force - dt > MIN_GRAVITY_FORCE ==> {
            &&& source.updated(dt, decrease, increase).force == source.force - dt
            &&& source.updated(dt, decrease, increase).cycle == Cycle::Falling
        },
{
}

/// Cycling by itself, the scalar moves towards the bound it is heading for
/// and, once there, turns round: it never stays stuck at a bound.
pub proof fn lemma_auto_cycle_turns(source: GravityView, dt: nat)
    requires
        source.wf(),
        source.auto_cycle,
        dt >= 1,
    ensures
        source.cycle == Cycle::Rising ==> source.updated(dt, false, false).force >= source.force,
        source.cycle == Cycle::Falling ==> source.updated(dt, false, false).force <= source.force,
        source.force == MAX_GRAVITY_FORCE && source.cycle == Cycle::Rising ==> source.updated(
            dt,
            false,
            false,
        ).cycle == Cycle::Falling,
        source.force == MIN_GRAVITY_FORCE && source.cycle == Cycle::Falling ==> source.updated(
            dt,
            false,
            false,
        ).cycle == Cycle::Rising,
{
}

/// The force at a fixed position is linear in the gravity scalar: the
/// numerators add and scale with the scalar, and the divisor does not
/// depend on it.
pub proof fn lemma_force_linear(coordinate: int, a: int, b: int, k: int)
    ensures
        spec_force_numerator(a + b, coordinate) == spec_force_numerator(a, coordinate)
            + spec_force_numerator(b, coordinate),
        spec_force_numerator(k * a, coordinate) == k * spec_force_numerator(a, coordinate),
        spec_force_numerator(0, coordinate) == 0,
{
    let c = GRAVITY_FORCE_SCALE * MM_PER_METER;
    assert(coordinate * (a + b) * c == coordinate * a * c + coordinate * b * c)
        by (nonlinear_arith);
    assert(coordinate * (k * a) * c == k * (coordinate * a * c)) by (nonlinear_arith);
    assert(coordinate * 0 * c == 0) by (nonlinear_arith);
}

/// Cross product of the forces at `position` under the scalars `a` and
/// `b`, over the product of their divisors. It is zero exactly when the two
/// forces lie on one line.
pub open spec fn spec_force_cross(position: Point, a: int, b: int) -> int {
    spec_force_numerator(a, position.x as int) * spec_force_numerator(b, position.y as int)
        - spec_force_numerator(a, position.y as int) * spec_force_numerator(b, position.x as int)
}

/// Dot product of the forces at `position` under the scalars `a` and `b`,
/// over the product of their divisors. It is positive when the two forces
/// point the same way along their line and negative when they point
/// opposite ways.
pub open spec fn spec_force_dot(position: Point, a: int, b: int) -> int {
    spec_force_numerator(a, position.x as int) * spec_force_numerator(b, position.x as int)
        + spec_force_numerator(a, position.y as int) * spec_force_numerator(b, position.y as int)
}

/// Dot product of the force at `position` under the scalar `force` with
/// the position itself: positive when the force points away from the
/// centre.
pub open spec fn spec_force_outward(position: Point, force: int) -> int {
    spec_force_numerator(force, position.x as int) * position.x + spec_force_numerator(
        force,
        position.y as int,
    ) * position.y
}

/// The direction of the force at a fixed position depends only on the sign
/// of the gravity scalar. All forces at the position lie on one line; two
/// scalars of the same sign give forces pointing the same way, two of
/// opposite sign give forces pointing opposite ways. A positive scalar
/// pushes away from the centre, a negative one pulls towards it, and a
/// scalar of zero gives no force.
pub proof fn lemma_force_direction_by_sign(position: Point, a: int, b: int)
    requires
        position != Point::spec_origin(),
    ensures
        spec_force_cross(position, a, b) == 0,
        (a > 0 && b > 0) || (a < 0 && b < 0) ==> spec_force_dot(position, a, b) > 0,
        (a > 0 && b < 0) || (a < 0 && b > 0) ==> spec_force_dot(position, a, b) < 0,
        a > 0 ==> spec_force_outward(position, a) > 0,
        a < 0 ==> spec_force_outward(position, a) < 0,
        a == 0 ==> spec_force_numerator(a, position.x as int) == 0 && spec_force_numerator(
            a,
            position.y as int,
        ) == 0,
{
    let x = position.x as int;
    let y = position.y as int;
    let c = GRAVITY_FORCE_SCALE * MM_PER_METER;
    assert(c == 1_875_000);
    let n2 = x * x + y * y;
    lemma_square_bounds(x, 0x8000_0000);
    lemma_square_bounds(y, 0x8000_0000);
    assert(n2 > 0);
    lemma_scaled_product(x, a, y, b, c);
    lemma_scaled_product(y, a, x, b, c);
    lemma_scaled_product(x, a, x, b, c);
    lemma_scaled_product(y, a, y, b, c);
    let ab = a * b;
    let cc = c * c;
    assert((x * y) * ab == (y * x) * ab) by (nonlinear_arith);
    assert(((x * x) * ab) * cc + ((y * y) * ab) * cc == ab * (n2 * cc)) by (nonlinear_arith)
        requires
            n2 == x * x + y * y,
    ;
    assert((x * a * c) * x == a * ((x * x) * c)) by (nonlinear_arith);
    assert((y * a * c) * y == a * ((y * y) * c)) by (nonlinear_arith);
    assert(a * ((x * x) * c) + a * ((y * y) * c) == a * (n2 * c)) by (nonlinear_arith)
        requires
            n2 == x * x + y * y,
    ;
    assert(n2 * c > 0 && n2 * (c * c) > 0) by (nonlinear_arith)
        requires
            n2 > 0,
            c > 0,
    ;
    let m = n2 * (c * c);
    let m1 = n2 * c;
    assert(((a > 0 && b > 0) || (a < 0 && b < 0)) ==> (a * b) * m > 0) by (nonlinear_arith)
        requires
            m > 0,
    ;
    assert(((a > 0 && b < 0) || (a < 0 && b > 0)) ==> (a * b) * m < 0) by (nonlinear_arith)
        requires
            m > 0,
    ;
    assert((a > 0 ==> a * m1 > 0) && (a < 0 ==> a * m1 < 0)) by (nonlinear_arith)
        requires
            m1 > 0,
    ;
    lemma_force_linear(x, a, 0, 0);
    lemma_force_linear(y, a, 0, 0);
}

/// The source of the central gravity field.
#[derive(Clone, Copy, Debug)]
pub struct GravitySource {
    force: i64,
    cycle: Cycle,
    auto_cycle: bool,
}

impl View for GravitySource {
    type V = GravityView;

    closed spec fn view(&self) -> GravityView {
        GravityView { force: self.force as int, cycle: self.cycle, auto_cycle: self.auto_cycle }
    }
}

impl Default for GravitySource {
    fn default() -> (source: GravitySource)
        ensures
            source@ == GravityView::initial(),
    {
        GravitySource {
            force: INITIAL_GRAVITY_FORCE,
            cycle: Cycle::Rising,
            auto_cycle: GRAVITY_AUTO_CYCLE_ENABLED_DEFAULT,
        }
    }
}

impl GravitySource {
    #[verifier::type_invariant]
    closed spec fn within_bounds(self) -> bool {
        MIN_GRAVITY_FORCE <= self.force <= MAX_GRAVITY_FORCE
    }

    /// The gravity scalar in billionths; it is never outside its bounds.
    pub fn force(&self) -> (force: i64)
        ensures
            force == self@.force,
            MIN_GRAVITY_FORCE <= force <= MAX_GRAVITY_FORCE,
    {
        proof {
            use_type_invariant(self);
        }
        self.force
    }

    pub fn cycle(&self) -> (cycle: Cycle)
        ensures
            cycle == self@.cycle,
    {
        self.cycle
    }

    pub fn auto_cycle(&self) -> (enabled: bool)
        ensures
            enabled == self@.auto_cycle,
    {
        self.auto_cycle
    }

    /// Switches between cycling by itself and manual control.
    pub fn set_auto_cycle(&mut self, enabled: bool)
        ensures
            final(self)@ == (GravityView { auto_cycle: enabled, ..old(self)@ }),
    {
        proof {
            use_type_invariant(&*self);
        }
        self.auto_cycle = enabled;
    }

    /// The force on a body at `position`, or `None` at the centre itself.
    pub fn force_at(&self, position: Point) -> (force: Option<ForceVector>)
        ensures
            force == spec_force_at(self@.force, position),
            force is None <==> position == Point::spec_origin(),
            force matches Some(vector) ==> {
                &&& vector.x == spec_force_numerator(self@.force, position.x as int)
                &&& vector.y == spec_force_numerator(self@.force, position.y as int)
                &&& vector.divisor == spec_force_divisor(position)
                &&& vector.divisor > 0
            },
    {
        proof {
            use_type_invariant(self);
            lemma_force_in_range(self.force as int, position);
            lemma_product_bounds(position.x as int, self.force as int);
            lemma_product_bounds(position.y as int, self.force as int);
        }
        let norm_squared: i128 = position.norm_squared();
        if norm_squared == 0 {
            return None;
        }
        let per_coordinate: i128 = (GRAVITY_FORCE_SCALE as i128) * (MM_PER_METER as i128);
        let scalar: i128 = self.force as i128;
        let x: i128 = (position.x as i128) * scalar * per_coordinate;
        let y: i128 = (position.y as i128) * scalar * per_coordinate;
        Some(ForceVector { x, y, divisor: norm_squared * (UNIT as i128) })
    }
}

/// Moves the gravity scalar for a tick of `dt` nanoseconds. The scalar
/// never leaves its bounds: where it would reach or pass one it is held
/// there and the cycle turns round.
pub fn update_gravity(
    gravity_source: &mut GravitySource,
    dt: u64,
    decrease_pressed: bool,
    increase_pressed: bool,
)
    ensures
        final(gravity_source)@ == old(gravity_source)@.updated(
            dt as nat,
            decrease_pressed,
            increase_pressed,
        ),
        final(gravity_source)@.wf(),
{
    proof {
        use_type_invariant(&*gravity_source);
    }
    let force_change: i128 = if gravity_source.auto_cycle {
        let increment: i128 = dt as i128;
        match gravity_source.cycle {
            Cycle::Falling => -increment,
            Cycle::Rising => increment,
        }
    } else if decrease_pressed {
        -(MANUAL_FORCE_STEP as i128)
    } else if increase_pressed {
        MANUAL_FORCE_STEP as i128
    } else {
        0
    };
    let moved: i128 = gravity_source.force as i128 + force_change;
    if moved >= MAX_GRAVITY_FORCE as i128 {
        gravity_source.force = MAX_GRAVITY_FORCE;
        gravity_source.cycle = Cycle::Falling;
    } else if moved <= MIN_GRAVITY_FORCE as i128 {
        gravity_source.force = MIN_GRAVITY_FORCE;
        gravity_source.cycle = Cycle::Rising;
    } else {
        gravity_source.force = moved as i64;
    }
}

/// The force on each of the bodies at `positions`, in order. A body at the
/// centre itself gets no force.
pub fn apply_forces(gravity_source: &GravitySource, positions: &Vec<Point>) -> (forces: Vec<
    Option<ForceVector>,
>)
    ensures
        forces@.len() == positions@.len(),
        forall|i: int|
            0 <= i < positions@.len() ==> #[trigger] forces@[i] == spec_force_at(
                gravity_source@.force,
                positions@[i],
            ),
{
    let mut forces: Vec<Option<ForceVector>> = Vec::new();
    let mut index: usize = 0;
    while index < positions.len()
        invariant
            index <= positions@.len(),
            forces@.len() == index,
            forall|i: int|
                0 <= i < index ==> #[trigger] forces@[i] == spec_force_at(
                    gravity_source@.force,
                    positions@[i],
                ),
        decreases positions.len() - index,
    {
        forces.push(gravity_source.force_at(positions[index]));
        index = index + 1;
    }
    forces
}

} // verus!

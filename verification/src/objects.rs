//! The debris that populates a level: how many bodies there are, what each
//! is made of and where it is put.
//!
//! Random draws are values from the unit interval in billionths; a draw
//! above one counts as one. The draws that decide density, shape, distance
//! and scale are handed in, so that a population can be planned from any
//! source of randomness.

use crate::random::draw_in_range;
use crate::units::LEVEL_BOUNDS_RADIUS;
use vstd::prelude::*;

verus! {

/// Bodies in a level before the difficulty bonus.
pub const BASE_OBJECTS_AMOUNT: u32 = 16;

/// Most bodies that a level holds.
pub const MAX_OBJECTS_AMOUNT: u32 = 60;

/// A density draw above this gives a heavy body: 0.78.
pub const HEAVY_ABOVE: u32 = 780_000_000;

/// A density draw below this gives a light body: 0.3.
pub const LIGHT_BELOW: u32 = 300_000_000;

/// A shape draw above this gives a circle: 0.6.
pub const CIRCLE_ABOVE: u32 = 600_000_000;

/// Smallest factor by which the scale of a body varies: 0.8.
pub const SCALE_VARIATION_LOW: u64 = 800_000_000;

/// Upper end of the factor by which the scale of a body varies: 1.4.
pub const SCALE_VARIATION_HIGH: u64 = 1_400_000_000;

/// No body is scaled below one.
pub const MIN_SCALE_FACTOR: u64 = 1_000_000_000;

/// Radius in millimetres of a body of scale one.
pub const BASE_RADIUS: u64 = 500;

/// One whole unit in billionths, as an unsigned number.
pub const WHOLE: u64 = 1_000_000_000;

/// Fewest sides of a randomised polygon.
pub const MIN_NGON_SIDES: u32 = 5;

/// Most sides of a randomised polygon.
pub const MAX_NGON_SIDES: u32 = 15;

/// The shape of a body.
#[derive(Clone, Copy, Debug, PartialEq, Eq, Structural)]
pub enum ObjectKind {
    /// A polygon with a random number of sides.
    Ngon,
    Circle,
}

/// The density tier of a body. Heavier tiers are larger and denser and sit
/// further from the centre.
#[derive(Clone, Copy, Debug, PartialEq, Eq, Structural)]
pub enum ObjectDensity {
    Light,
    Medium,
    Heavy,
}

/// What a density tier means for a body. All values are in billionths.
#[derive(Clone, Copy, Debug, PartialEq, Eq, Structural)]
pub struct DensityProfile {
    /// Physical density.
    pub density_value: u64,
    /// Scale of the body before its random variation.
    pub base_scale_factor: u64,
    /// Bound on each component of the random force the body starts with.
    pub max_random_force: u64,
    /// Bound on the random torque the body starts with.
    pub max_random_torque: u64,
    /// Nearest the body is put to the centre, as a fraction of the level
    /// radius.
    pub distance_low: u64,
    /// Furthest the body is put from the centre, as a fraction of the level
    /// radius.
    pub distance_high: u64,
}

/// The draws that decide one body.
#[derive(Clone, Copy, Debug, PartialEq, Eq, Structural)]
pub struct ObjectDraws {
    pub density: u32,
    pub kind: u32,
    pub distance: u32,
    pub scale: u32,
}

/// How the physics collaborator is to bound a body.
#[derive(Clone, Copy, Debug, PartialEq, Eq, Structural)]
pub enum ColliderChoice {
    /// The convex hull of the vertices of the polygon.
    ConvexHull,
    /// A circle of the given radius in millimetres.
    Ball { radius: u64 },
}

/// Everything that is decided about one body before it is spawned.
#[derive(Clone, Copy, Debug, PartialEq, Eq, Structural)]
pub struct ObjectPlan {
    pub kind: ObjectKind,
    pub density: ObjectDensity,
    /// Number of sides, for a polygon.
    pub sides: Option<u32>,
    /// The body stands at `turn_index / turn_total` of a full turn.
    pub turn_index: u32,
    pub turn_total: u32,
    /// Distance from the centre in millimetres.
    pub distance_from_center: u64,
    /// Scale in billionths, at least one.
    pub scale_factor: u64,
    /// Nominal radius in millimetres.
    pub base_radius: u64,
    /// Restitution coefficient in billionths.
    pub restitution: u64,
}

/// The shape for a shape draw.
pub open spec fn spec_object_kind(draw: u32) -> ObjectKind {
    if draw > CIRCLE_ABOVE {
        ObjectKind::Circle
    } else {
        ObjectKind::Ngon
    }
}

/// The density tier for a density draw.
pub open spec fn spec_object_density(draw: u32) -> ObjectDensity {
    if draw > HEAVY_ABOVE {
        ObjectDensity::Heavy
    } else if draw < LIGHT_BELOW {
        ObjectDensity::Light
    } else {
        ObjectDensity::Medium
    }
}

/// The shape of a body of the given tier: light bodies are circles, heavy
/// ones polygons, and the shape draw decides for medium ones.
pub open spec fn spec_kind_for(density: ObjectDensity, kind_draw: u32) -> ObjectKind {
    match density {
        ObjectDensity::Light => ObjectKind::Circle,
        ObjectDensity::Medium => spec_object_kind(kind_draw),
        ObjectDensity::Heavy => ObjectKind::Ngon,
    }
}

pub open spec fn spec_profile(density: ObjectDensity) -> DensityProfile {
    match density {
        ObjectDensity::Light => DensityProfile {
            density_value: 750_000_000,
            base_scale_factor: 1_000_000_000,
            max_random_force: 3_000_000_000,
            max_random_torque: 300_000_000,
            distance_low: 150_000_000,
            distance_high: 850_000_000,
        },
        ObjectDensity::Medium => DensityProfile {
            density_value: 1_000_000_000,
            base_scale_factor: 2_000_000_000,
            max_random_force: 30_000_000_000,
            max_random_torque: 1_000_000_000,
            distance_low: 250_000_000,
            distance_high: 750_000_000,
        },
        ObjectDensity::Heavy => DensityProfile {
            density_value: 10_000_000_000,
            base_scale_factor: 3_200_000_000,
            max_random_force: 200_000_000_000,
            max_random_torque: 20_000_000_000,
            distance_low: 500_000_000,
            distance_high: 850_000_000,
        },
    }
}

/// Number of bodies in level `level`: two more for each level, up to the
/// most that a level holds.
pub open spec fn spec_objects_amount(level: nat) -> nat {
    if BASE_OBJECTS_AMOUNT + 2 * level <= MAX_OBJECTS_AMOUNT {
        (BASE_OBJECTS_AMOUNT + 2 * level) as nat
    } else {
        MAX_OBJECTS_AMOUNT as nat
    }
}

/// A draw held to the unit interval: a draw above one counts as one.
pub open spec fn spec_unit_draw(draw: int) -> int {
    if draw > WHOLE {
        WHOLE as int
    } else {
        draw
    }
}

/// The point of the range from `low` to `high` that a draw from the unit
/// interval stands for, rounded down.
pub open spec fn spec_scale_draw(low: int, high: int, draw: int) -> int {
    low + ((high - low) * spec_unit_draw(draw)) / (WHOLE as int)
}

/// The given fraction, in billionths, of a length, rounded down.
pub open spec fn spec_fraction_of(length: int, fraction: int) -> int {
    (length * fraction) / (WHOLE as int)
}

/// Distance from the centre of a body of the given tier.
pub open spec fn spec_distance(density: ObjectDensity, draw: u32) -> int {
    spec_fraction_of(
        LEVEL_BOUNDS_RADIUS as int,
        spec_scale_draw(
            spec_profile(density).distance_low as int,
            spec_profile(density).distance_high as int,
            draw as int,
        ),
    )
}

/// Nearest that a body of the given tier is put to the centre.
pub open spec fn spec_distance_low(density: ObjectDensity) -> int {
    spec_fraction_of(LEVEL_BOUNDS_RADIUS as int, spec_profile(density).distance_low as int)
}

/// Furthest that a body of the given tier is put from the centre.
pub open spec fn spec_distance_high(density: ObjectDensity) -> int {
    spec_fraction_of(LEVEL_BOUNDS_RADIUS as int, spec_profile(density).distance_high as int)
}

/// Largest scale of a body of the given tier: 1.4 times its base scale.
pub open spec fn spec_scale_high(density: ObjectDensity) -> int {
    spec_fraction_of(
        spec_profile(density).base_scale_factor as int,
        SCALE_VARIATION_HIGH as int,
    )
}

/// Whether a plan keeps to the bands of its tier: the body stands within
/// the distance band, and its scale lies between one and 1.4 times the
/// base scale of the tier.
pub open spec fn in_bands(plan: ObjectPlan) -> bool {
    &&& spec_distance_low(plan.density) <= plan.distance_from_center <= spec_distance_high(
        plan.density,
    )
    &&& MIN_SCALE_FACTOR <= plan.scale_factor <= spec_scale_high(plan.density)
}

/// Scale of a body of the given tier: the base scale of the tier, varied
/// by a factor between 0.8 and 1.4, and never below one.
pub open spec fn spec_scale_factor(density: ObjectDensity, draw: u32) -> int {
    let varied = spec_fraction_of(
        spec_profile(density).base_scale_factor as int,
        spec_scale_draw(SCALE_VARIATION_LOW as int, SCALE_VARIATION_HIGH as int, draw as int),
    );
    if varied < MIN_SCALE_FACTOR {
        MIN_SCALE_FACTOR as int
    } else {
        varied
    }
}

/// Nominal radius of a body of the given scale.
pub open spec fn spec_base_radius(scale_factor: int) -> int {
    spec_fraction_of(BASE_RADIUS as int, scale_factor)
}

/// Restitution of a body of the given shape: polygons barely bounce,
/// circles bounce fully.
pub open spec fn spec_restitution(kind: ObjectKind) -> int {
    match kind {
        ObjectKind::Ngon => 100_000_000,
        ObjectKind::Circle => 1_000_000_000,
    }
}

/// The plan of body `index` of `total`, counted from one, for the given
/// draws; `sides` is used if the body is a polygon.
pub open spec fn spec_plan_object(index: u32, total: u32, draws: ObjectDraws, sides: u32)
    -> ObjectPlan {
    let density = spec_object_density(draws.density);
    let kind = spec_kind_for(density, draws.kind);
    let scale_factor = spec_scale_factor(density, draws.scale);
    ObjectPlan {
        kind,
        density,
        sides: if kind == ObjectKind::Ngon {
            Some(sides)
        } else {
            None
        },
        turn_index: index,
        turn_total: total,
        distance_from_center: spec_distance(density, draws.distance) as u64,
        scale_factor: scale_factor as u64,
        base_radius: spec_base_radius(scale_factor) as u64,
        restitution: spec_restitution(kind) as u64,
    }
}

/// How to bound a polygon: by its convex hull, or, where the hull could
/// not be built, by a circle of the nominal radius.
pub open spec fn spec_ngon_collider(hull_built: bool, base_radius: u64) -> ColliderChoice {
    if hull_built {
        ColliderChoice::ConvexHull
    } else {
        ColliderChoice::Ball { radius: base_radius }
    }
}

impl ObjectKind {
    pub fn from_draw(draw: u32) -> (kind: ObjectKind)
        ensures
            kind == spec_object_kind(draw),
    {
        if draw > CIRCLE_ABOVE {
            ObjectKind::Circle
        } else {
            ObjectKind::Ngon
        }
    }

    /// Restitution coefficient in billionths.
    pub fn restitution(&self) -> (coefficient: u64)
        ensures
            coefficient == spec_restitution(*self),
    {
        match self {
            ObjectKind::Ngon => 100_000_000,
            ObjectKind::Circle => 1_000_000_000,
        }
    }
}

impl ObjectDensity {
    pub fn from_draw(draw: u32) -> (density: ObjectDensity)
        ensures
            density == spec_object_density(draw),
    {
        if draw > HEAVY_ABOVE {
            ObjectDensity::Heavy
        } else if draw < LIGHT_BELOW {
            ObjectDensity::Light
        } else {
            ObjectDensity::Medium
        }
    }

    pub fn profile(&self) -> (profile: DensityProfile)
        ensures
            profile == spec_profile(*self),
            profile.distance_low <= profile.distance_high <= WHOLE,
            WHOLE <= profile.base_scale_factor <= 4 * WHOLE,
    {
        match self {
            ObjectDensity::Light => DensityProfile {
                density_value: 750_000_000,
                base_scale_factor: 1_000_000_000,
                max_random_force: 3_000_000_000,
                max_random_torque: 300_000_000,
                distance_low: 150_000_000,
                distance_high: 850_000_000,
            },
            ObjectDensity::Medium => DensityProfile {
                density_value: 1_000_000_000,
                base_scale_factor: 2_000_000_000,
                max_random_force: 30_000_000_000,
                max_random_torque: 1_000_000_000,
                distance_low: 250_000_000,
                distance_high: 750_000_000,
            },
            ObjectDensity::Heavy => DensityProfile {
                density_value: 10_000_000_000,
                base_scale_factor: 3_200_000_000,
                max_random_force: 200_000_000_000,
                max_random_torque: 20_000_000_000,
                distance_low: 500_000_000,
                distance_high: 850_000_000,
            },
        }
    }

    /// The shape of a body of this tier.
    pub fn kind_for(&self, kind_draw: u32) -> (kind: ObjectKind)
        ensures
            kind == spec_kind_for(*self, kind_draw),
    {
        match self {
            ObjectDensity::Light => ObjectKind::Circle,
            ObjectDensity::Medium => ObjectKind::from_draw(kind_draw),
            ObjectDensity::Heavy => ObjectKind::Ngon,
        }
    }
}

/// Number of bodies in level `level`.
pub fn objects_amount(level: u32) -> (amount: u32)
    ensures
        amount == spec_objects_amount(level as nat),
        BASE_OBJECTS_AMOUNT <= amount <= MAX_OBJECTS_AMOUNT,
{
    if level <= (MAX_OBJECTS_AMOUNT - BASE_OBJECTS_AMOUNT) / 2 {
        BASE_OBJECTS_AMOUNT + 2 * level
    } else {
        MAX_OBJECTS_AMOUNT
    }
}

/// The point of the range from `low` to `high` that `draw` stands for.
fn scale_draw(low: u64, high: u64, draw: u32) -> (point: u64)
    requires
        low <= high <= 4 * WHOLE,
    ensures
        point == spec_scale_draw(low as int, high as int, draw as int),
        low <= point <= high,
{
    let span: u64 = high - low;
    let unit: u64 = if draw as u64 > WHOLE {
        WHOLE
    } else {
        draw as u64
    };
    assert(span * unit <= 4_000_000_000_000_000_000 && (span * unit) / 1_000_000_000 <= span)
        by (nonlinear_arith)
        requires
            0 <= span <= 4_000_000_000,
            0 <= unit <= 1_000_000_000,
    ;
    low + (span * unit) / WHOLE
}

/// The given fraction, in billionths, of a length.
fn fraction_of(length: u64, fraction: u64) -> (part: u64)
    requires
        length <= 4 * WHOLE,
        fraction <= 4 * WHOLE,
    ensures
        part == spec_fraction_of(length as int, fraction as int),
{
    assert(length * fraction <= 16_000_000_000_000_000_000) by (nonlinear_arith)
        requires
            length <= 4_000_000_000,
            fraction <= 4_000_000_000,
    ;
    (length * fraction) / WHOLE
}

/// A larger fraction of a length is no smaller a part of it.
pub proof fn lemma_fraction_monotone(length: int, smaller: int, larger: int)
    requires
        0 <= length,
        0 <= smaller <= larger,
    ensures
        0 <= spec_fraction_of(length, smaller) <= spec_fraction_of(length, larger),
{
    assert(0 <= (length * smaller) / 1_000_000_000 <= (length * larger) / 1_000_000_000)
        by (nonlinear_arith)
        requires
            0 <= length,
            0 <= smaller <= larger,
    ;
}

/// A draw stands for a point of its range.
pub proof fn lemma_scale_draw_in_range(low: int, high: int, draw: int)
    requires
        0 <= low <= high,
        0 <= draw,
    ensures
        low <= spec_scale_draw(low, high, draw) <= high,
{
    let span = high - low;
    let unit = spec_unit_draw(draw);
    assert(0 <= (span * unit) / 1_000_000_000 <= span) by (nonlinear_arith)
        requires
            0 <= span,
            0 <= unit <= 1_000_000_000,
    ;
}

/// Every plan keeps to the bands of its tier, whatever the draws.
pub proof fn lemma_plan_in_bands(index: u32, total: u32, draws: ObjectDraws, sides: u32)
    ensures
        in_bands(spec_plan_object(index, total, draws, sides)),
{
    let density = spec_object_density(draws.density);
    let profile = spec_profile(density);
    let fraction = spec_scale_draw(
        profile.distance_low as int,
        profile.distance_high as int,
        draws.distance as int,
    );
    lemma_scale_draw_in_range(
        profile.distance_low as int,
        profile.distance_high as int,
        draws.distance as int,
    );
    lemma_fraction_monotone(LEVEL_BOUNDS_RADIUS as int, profile.distance_low as int, fraction);
    lemma_fraction_monotone(LEVEL_BOUNDS_RADIUS as int, fraction, profile.distance_high as int);
    let variation = spec_scale_draw(
        SCALE_VARIATION_LOW as int,
        SCALE_VARIATION_HIGH as int,
        draws.scale as int,
    );
    lemma_scale_draw_in_range(
        SCALE_VARIATION_LOW as int,
        SCALE_VARIATION_HIGH as int,
        draws.scale as int,
    );
    lemma_fraction_monotone(
        profile.base_scale_factor as int,
        variation,
        SCALE_VARIATION_HIGH as int,
    );
    lemma_fraction_monotone(
        profile.base_scale_factor as int,
        WHOLE as int,
        SCALE_VARIATION_HIGH as int,
    );
    assert(spec_fraction_of(profile.base_scale_factor as int, WHOLE as int)
        == profile.base_scale_factor);
}

/// The nominal radius of a body of the given scale.
fn base_radius_of(scale_factor: u64) -> (radius: u64)
    requires
        scale_factor <= 16 * WHOLE,
    ensures
        radius == spec_base_radius(scale_factor as int),
{
    (BASE_RADIUS * scale_factor) / WHOLE
}

/// How to bound a polygon whose convex hull was or was not built.
pub fn ngon_collider(hull_built: bool, base_radius: u64) -> (choice: ColliderChoice)
    ensures
        choice == spec_ngon_collider(hull_built, base_radius),
{
    if hull_built {
        ColliderChoice::ConvexHull
    } else {
        ColliderChoice::Ball { radius: base_radius }
    }
}

/// Plans body `index` of `total`, counted from one.
pub fn plan_object(index: u32, total: u32, draws: ObjectDraws, sides: u32) -> (plan: ObjectPlan)
    ensures
        plan == spec_plan_object(index, total, draws, sides),
        in_bands(plan),
{
    proof {
        lemma_plan_in_bands(index, total, draws, sides);
    }
    let density: ObjectDensity = ObjectDensity::from_draw(draws.density);
    let kind: ObjectKind = density.kind_for(draws.kind);
    let profile: DensityProfile = density.profile();
    let distance_fraction: u64 = scale_draw(
        profile.distance_low,
        profile.distance_high,
        draws.distance,
    );
    let distance_from_center: u64 = fraction_of(LEVEL_BOUNDS_RADIUS as u64, distance_fraction);
    let variation: u64 = scale_draw(SCALE_VARIATION_LOW, SCALE_VARIATION_HIGH, draws.scale);
    let varied: u64 = fraction_of(profile.base_scale_factor, variation);
    let scale_factor: u64 = if varied < MIN_SCALE_FACTOR {
        MIN_SCALE_FACTOR
    } else {
        varied
    };
    let base_radius: u64 = base_radius_of(scale_factor);
    ObjectPlan {
        kind,
        density,
        sides: match kind {
            ObjectKind::Ngon => Some(sides),
            ObjectKind::Circle => None,
        },
        turn_index: index,
        turn_total: total,
        distance_from_center,
        scale_factor,
        base_radius,
        restitution: kind.restitution(),
    }
}

/// Whether `plan` is the plan of body `index` of `total` for the given
/// draws, with some admissible number of sides.
pub open spec fn is_plan_of(plan: ObjectPlan, index: u32, total: u32, draws: ObjectDraws) -> bool {
    exists|sides: u32|
        MIN_NGON_SIDES <= sides <= MAX_NGON_SIDES && plan == #[trigger] spec_plan_object(
            index,
            total,
            draws,
            sides,
        )
}

/// Why a population could not be planned: it takes one set of draws for
/// each body.
#[derive(Clone, Copy, Debug, PartialEq, Eq, Structural)]
pub struct MissingDraws {
    /// Bodies that the level holds.
    pub needed: u32,
    /// Sets of draws that were handed in.
    pub given: usize,
}

/// Plans the population of level `level`: as many bodies as the level
/// holds, one for each of the first draws, spread evenly round a full
/// turn. The number of sides of each polygon is drawn here. With fewer
/// draws than bodies nothing is planned.
pub fn plan_objects(level: u32, draws: &Vec<ObjectDraws>) -> (planned: Result<
    Vec<ObjectPlan>,
    MissingDraws,
>)
    ensures
        planned is Ok <==> draws@.len() >= spec_objects_amount(level as nat),
        planned matches Ok(plans) ==> {
            &&& plans@.len() == spec_objects_amount(level as nat)
            &&& forall|i: int|
                0 <= i < plans@.len() ==> is_plan_of(
                    #[trigger] plans@[i],
                    (i + 1) as u32,
                    spec_objects_amount(level as nat) as u32,
                    draws@[i],
                )
            &&& forall|i: int| 0 <= i < plans@.len() ==> in_bands(#[trigger] plans@[i])
        },
        planned matches Err(missing) ==> missing == (MissingDraws {
            needed: spec_objects_amount(level as nat) as u32,
            given: draws@.len() as usize,
        }),
{
    let total: u32 = objects_amount(level);
    if draws.len() < total as usize {
        return Err(MissingDraws { needed: total, given: draws.len() });
    }
    let mut plans: Vec<ObjectPlan> = Vec::new();
    let mut index: u32 = 0;
    while index < total
        invariant
            index <= total,
            total <= draws@.len(),
            total == spec_objects_amount(level as nat),
            total <= MAX_OBJECTS_AMOUNT,
            plans@.len() == index,
            forall|i: int|
                0 <= i < index ==> is_plan_of(
                    #[trigger] plans@[i],
                    (i + 1) as u32,
                    total,
                    draws@[i],
                ),
            forall|i: int| 0 <= i < index ==> in_bands(#[trigger] plans@[i]),
        decreases total - index,
    {
        let body: ObjectDraws = draws[index as usize];
        let sides: u32 = match ObjectDensity::from_draw(body.density).kind_for(body.kind) {
            ObjectKind::Ngon => draw_in_range(MIN_NGON_SIDES, MAX_NGON_SIDES),
            ObjectKind::Circle => MIN_NGON_SIDES,
        };
        let plan: ObjectPlan = plan_object(index + 1, total, body, sides);
        plans.push(plan);
        index = index + 1;
    }
    Ok(plans)
}

} // verus!

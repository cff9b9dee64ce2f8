use vetovoima::objects::{
    ngon_collider, objects_amount, plan_object, plan_objects, ColliderChoice, MissingDraws,
    ObjectDensity, ObjectDraws, ObjectKind, ObjectPlan, MAX_NGON_SIDES, MIN_NGON_SIDES,
};

const UNIT: u32 = 1_000_000_000;

#[test]
fn population_of_level_one_is_eighteen() {
    assert_eq!(objects_amount(1), 18);
}

#[test]
fn population_of_level_forty_is_capped_at_sixty() {
    assert_eq!(objects_amount(40), 60);
}

#[test]
fn population_grows_by_two_per_level_up_to_the_cap() {
    assert_eq!(objects_amount(0), 16);
    assert_eq!(objects_amount(21), 58);
    assert_eq!(objects_amount(22), 60);
    assert_eq!(objects_amount(23), 60);
    assert_eq!(objects_amount(u32::MAX), 60);
    for level in 0..22u32 {
        assert_eq!(objects_amount(level), 16 + 2 * level);
    }
}

#[test]
fn density_follows_the_draw() {
    assert_eq!(ObjectDensity::from_draw(0), ObjectDensity::Light);
    assert_eq!(ObjectDensity::from_draw(299_999_999), ObjectDensity::Light);
    assert_eq!(ObjectDensity::from_draw(300_000_000), ObjectDensity::Medium);
    assert_eq!(ObjectDensity::from_draw(780_000_000), ObjectDensity::Medium);
    assert_eq!(ObjectDensity::from_draw(780_000_001), ObjectDensity::Heavy);
    assert_eq!(ObjectDensity::from_draw(UNIT - 1), ObjectDensity::Heavy);
}

#[test]
fn kind_follows_the_draw() {
    assert_eq!(ObjectKind::from_draw(0), ObjectKind::Ngon);
    assert_eq!(ObjectKind::from_draw(600_000_000), ObjectKind::Ngon);
    assert_eq!(ObjectKind::from_draw(600_000_001), ObjectKind::Circle);
}

#[test]
fn light_is_round_and_heavy_is_angular() {
    for draw in [0, 600_000_000, 600_000_001, UNIT - 1] {
        assert_eq!(ObjectDensity::Light.kind_for(draw), ObjectKind::Circle);
        assert_eq!(ObjectDensity::Heavy.kind_for(draw), ObjectKind::Ngon);
        assert_eq!(ObjectDensity::Medium.kind_for(draw), ObjectKind::from_draw(draw));
    }
}

#[test]
fn profiles_grow_with_density() {
    let light = ObjectDensity::Light.profile();
    let medium = ObjectDensity::Medium.profile();
    let heavy = ObjectDensity::Heavy.profile();
    assert_eq!(light.density_value, 750_000_000);
    assert_eq!(medium.density_value, 1_000_000_000);
    assert_eq!(heavy.density_value, 10_000_000_000);
    assert_eq!(light.base_scale_factor, 1_000_000_000);
    assert_eq!(medium.base_scale_factor, 2_000_000_000);
    assert_eq!(heavy.base_scale_factor, 3_200_000_000);
    assert_eq!(
        (light.max_random_force, medium.max_random_force, heavy.max_random_force),
        (3_000_000_000, 30_000_000_000, 200_000_000_000)
    );
    assert_eq!(
        (light.max_random_torque, medium.max_random_torque, heavy.max_random_torque),
        (300_000_000, 1_000_000_000, 20_000_000_000)
    );
    assert_eq!((light.distance_low, light.distance_high), (150_000_000, 850_000_000));
    assert_eq!((medium.distance_low, medium.distance_high), (250_000_000, 750_000_000));
    assert_eq!((heavy.distance_low, heavy.distance_high), (500_000_000, 850_000_000));
}

#[test]
fn light_body_plan_is_exact() {
    let draws = ObjectDraws { density: 0, kind: 0, distance: 500_000_000, scale: 0 };
    let plan = plan_object(3, 18, draws, 9);
    assert_eq!(
        plan,
        ObjectPlan {
            kind: ObjectKind::Circle,
            density: ObjectDensity::Light,
            sides: None,
            turn_index: 3,
            turn_total: 18,
            // 28 m * (0.15 + 0.7 * 0.5)
            distance_from_center: 14_000,
            // 1.0 * 0.8, held at one
            scale_factor: 1_000_000_000,
            base_radius: 500,
            restitution: 1_000_000_000,
        }
    );
}

#[test]
fn medium_body_plan_is_exact() {
    let draws = ObjectDraws {
        density: 500_000_000,
        kind: 100_000_000,
        distance: 0,
        scale: 500_000_000,
    };
    let plan = plan_object(1, 16, draws, 7);
    assert_eq!(
        plan,
        ObjectPlan {
            kind: ObjectKind::Ngon,
            density: ObjectDensity::Medium,
            sides: Some(7),
            turn_index: 1,
            turn_total: 16,
            // 28 m * 0.25
            distance_from_center: 7_000,
            // 2.0 * (0.8 + 0.6 * 0.5)
            scale_factor: 2_200_000_000,
            base_radius: 1_100,
            restitution: 100_000_000,
        }
    );
    let round = plan_object(1, 16, ObjectDraws { kind: 900_000_000, ..draws }, 7);
    assert_eq!(round.kind, ObjectKind::Circle);
    assert_eq!(round.sides, None);
    assert_eq!(round.restitution, 1_000_000_000);
}

#[test]
fn heavy_body_plan_is_exact() {
    let draws = ObjectDraws {
        density: 900_000_000,
        kind: 900_000_000,
        distance: 999_999_999,
        scale: 250_000_000,
    };
    let plan = plan_object(60, 60, draws, 15);
    assert_eq!(
        plan,
        ObjectPlan {
            kind: ObjectKind::Ngon,
            density: ObjectDensity::Heavy,
            sides: Some(15),
            turn_index: 60,
            turn_total: 60,
            // 28 m * (0.5 + 0.35 * 0.999999999), rounded down
            distance_from_center: 23_799,
            // 3.2 * (0.8 + 0.6 * 0.25)
            scale_factor: 3_040_000_000,
            base_radius: 1_520,
            restitution: 100_000_000,
        }
    );
}

#[test]
fn draws_above_one_count_as_one() {
    let draws = ObjectDraws { density: u32::MAX, kind: u32::MAX, distance: u32::MAX, scale: u32::MAX };
    let plan = plan_object(u32::MAX, u32::MAX, draws, u32::MAX);
    assert_eq!(plan.density, ObjectDensity::Heavy);
    assert_eq!(plan.sides, Some(u32::MAX));
    // 28 m * 0.85, the far end of the band
    assert_eq!(plan.distance_from_center, 23_800);
    // 3.2 * 1.4
    assert_eq!(plan.scale_factor, 4_480_000_000);
    assert_eq!(plan.base_radius, 2_240);
    let one = ObjectDraws { distance: 1_000_000_000, scale: 1_000_000_000, ..draws };
    assert_eq!(plan_object(1, 16, one, 5).distance_from_center, 23_800);
    assert_eq!(plan_object(1, 16, one, 5).scale_factor, 4_480_000_000);
    let light = ObjectDraws { density: 0, kind: 0, distance: u32::MAX, scale: u32::MAX };
    let plan = plan_object(1, 16, light, 5);
    assert_eq!(plan.distance_from_center, 23_800);
    assert_eq!(plan.scale_factor, 1_400_000_000);
    assert_eq!(plan.base_radius, 700);
}

#[test]
fn bodies_stay_within_the_bands_of_their_tier() {
    let bands = [
        (0u32, 4_200u64, 23_800u64, 1_400_000_000u64),
        (500_000_000, 7_000, 21_000, 2_800_000_000),
        (900_000_000, 14_000, 23_800, 4_480_000_000),
    ];
    for (density, near, far, largest) in bands {
        for draw in [0u32, 1, 123_456_789, 500_000_000, 999_999_999, 1_000_000_000, u32::MAX] {
            let draws = ObjectDraws { density, kind: draw, distance: draw, scale: draw };
            let plan = plan_object(1, 16, draws, 5);
            assert!(near <= plan.distance_from_center && plan.distance_from_center <= far);
            assert!(1_000_000_000 <= plan.scale_factor && plan.scale_factor <= largest);
        }
        let nearest = ObjectDraws { density, kind: 0, distance: 0, scale: 0 };
        assert_eq!(plan_object(1, 16, nearest, 5).distance_from_center, near);
    }
}

#[test]
fn scale_is_never_below_one() {
    for density in [0u32, 500_000_000, 900_000_000] {
        for scale in [0u32, 1, 333_333_333, 999_999_999] {
            let draws = ObjectDraws { density, kind: 0, distance: 0, scale };
            let plan = plan_object(1, 16, draws, 5);
            assert!(plan.scale_factor >= 1_000_000_000);
            assert!(plan.base_radius >= 500);
        }
    }
}

#[test]
fn failed_hull_falls_back_to_ball_of_nominal_radius() {
    assert_eq!(ngon_collider(true, 1_100), ColliderChoice::ConvexHull);
    assert_eq!(ngon_collider(false, 1_100), ColliderChoice::Ball { radius: 1_100 });
}

fn draws_for(count: usize) -> Vec<ObjectDraws> {
    (0..count)
        .map(|i| ObjectDraws {
            density: ((i as u32) * 97_000_000) % UNIT,
            kind: ((i as u32) * 41_000_000) % UNIT,
            distance: ((i as u32) * 13_000_000) % UNIT,
            scale: ((i as u32) * 71_000_000) % UNIT,
        })
        .collect()
}

#[test]
fn population_is_planned_in_order_round_a_full_turn() {
    let draws = draws_for(18);
    let plans = plan_objects(1, &draws).unwrap();
    assert_eq!(plans.len(), 18);
    for (i, plan) in plans.iter().enumerate() {
        let sides = plan.sides.unwrap_or(5);
        assert_eq!(*plan, plan_object(i as u32 + 1, 18, draws[i], sides));
        assert_eq!(plan.turn_index, i as u32 + 1);
        assert_eq!(plan.turn_total, 18);
    }
}

#[test]
fn polygon_sides_are_drawn_between_five_and_fifteen() {
    let heavy = ObjectDraws { density: 999_999_999, kind: 0, distance: 0, scale: 0 };
    let draws = vec![heavy; 60];
    let mut seen = std::collections::BTreeSet::new();
    for _ in 0..20 {
        let plans = plan_objects(40, &draws).unwrap();
        assert_eq!(plans.len(), 60);
        for plan in &plans {
            assert_eq!(plan.kind, ObjectKind::Ngon);
            let sides = plan.sides.unwrap();
            assert!((5..=15).contains(&sides));
            assert!((MIN_NGON_SIDES..=MAX_NGON_SIDES).contains(&sides));
            seen.insert(sides);
        }
    }
    // 1200 draws from eleven values: more than one value must turn up.
    assert!(seen.len() > 1);
}

#[test]
fn circles_have_no_sides() {
    let light = ObjectDraws { density: 0, kind: 0, distance: 0, scale: 0 };
    for plan in plan_objects(0, &vec![light; 16]).unwrap() {
        assert_eq!(plan.kind, ObjectKind::Circle);
        assert_eq!(plan.sides, None);
    }
}

#[test]
fn population_is_the_whole_population_of_the_level() {
    assert_eq!(plan_objects(1, &draws_for(100)).unwrap().len(), 18);
    assert_eq!(plan_objects(40, &draws_for(100)).unwrap().len(), 60);
    assert_eq!(plan_objects(0, &draws_for(16)).unwrap().len(), 16);
    let plans = plan_objects(40, &draws_for(60)).unwrap();
    assert_eq!(plans[59].turn_index, 60);
    assert_eq!(plans[59].turn_total, 60);
}

#[test]
fn too_few_draws_are_reported() {
    assert_eq!(plan_objects(40, &draws_for(7)), Err(MissingDraws { needed: 60, given: 7 }));
    assert_eq!(plan_objects(1, &draws_for(17)), Err(MissingDraws { needed: 18, given: 17 }));
    assert_eq!(plan_objects(0, &Vec::new()), Err(MissingDraws { needed: 16, given: 0 }));
    assert!(plan_objects(1, &draws_for(18)).is_ok());
}

use vetovoima::placement::{
    fallback_anchor, find_player_anchor, place_player_and_goal, placement_for_pick, player_anchor,
    Placement, MIN_PLAYER_DISTANCE_FROM_FLAG,
};
use vetovoima::units::Point;

fn ring() -> Vec<Point> {
    // A coarse ring of radius 26.4 m.
    vec![
        Point { x: 26_400, y: 0 },
        Point { x: 18_668, y: 18_668 },
        Point { x: 0, y: 26_400 },
        Point { x: -18_668, y: 18_668 },
        Point { x: -26_400, y: 0 },
        Point { x: -18_668, y: -18_668 },
        Point { x: 0, y: -26_400 },
        Point { x: 18_668, y: -18_668 },
    ]
}

#[test]
fn distances_are_exact() {
    let a = Point { x: 3, y: -4 };
    assert_eq!(a.norm_squared(), 25);
    assert_eq!(a.distance_squared(&Point { x: 0, y: 0 }), 25);
    assert_eq!(a.distance_squared(&Point { x: 3, y: -4 }), 0);
    let far = Point { x: i32::MIN, y: i32::MAX };
    let opposite = Point { x: i32::MAX, y: i32::MIN };
    let side = u32::MAX as i128;
    assert_eq!(far.distance_squared(&opposite), 2 * side * side);
    assert_eq!(Point::origin(), Point { x: 0, y: 0 });
}

#[test]
fn player_starts_at_first_vertex_far_from_flag() {
    let vertices = ring();
    let flag = vertices[0];
    // Only the opposite vertex is more than 50.4 m away.
    assert_eq!(find_player_anchor(&vertices, flag), Some(4));
    assert_eq!(player_anchor(&vertices, flag), vertices[4]);
    let flag = vertices[5];
    assert_eq!(find_player_anchor(&vertices, flag), Some(1));
}

#[test]
fn first_of_several_far_vertices_wins() {
    let vertices = vec![
        Point { x: 0, y: 0 },
        Point { x: 60_000, y: 0 },
        Point { x: 0, y: 70_000 },
    ];
    assert_eq!(find_player_anchor(&vertices, Point { x: 0, y: 0 }), Some(1));
}

#[test]
fn distance_must_exceed_the_minimum() {
    assert_eq!(MIN_PLAYER_DISTANCE_FROM_FLAG, 50_400);
    let flag = Point { x: 0, y: 0 };
    assert_eq!(find_player_anchor(&vec![Point { x: 50_400, y: 0 }], flag), None);
    assert_eq!(find_player_anchor(&vec![Point { x: 50_401, y: 0 }], flag), Some(0));
    assert_eq!(find_player_anchor(&vec![Point { x: 50_400, y: 1 }], flag), Some(0));
}

#[test]
fn player_falls_back_when_no_vertex_is_far_enough() {
    let vertices = vec![Point { x: 100, y: 0 }, Point { x: 0, y: 100 }];
    assert_eq!(find_player_anchor(&vertices, vertices[0]), None);
    assert_eq!(player_anchor(&vertices, vertices[0]), Point { x: 0, y: -14_000 });
    assert_eq!(fallback_anchor(), Point { x: 0, y: -14_000 });
    assert_eq!(player_anchor(&Vec::new(), Point { x: 1, y: 1 }), fallback_anchor());
}

#[test]
fn placement_for_a_given_pick_is_exact() {
    let vertices = ring();
    assert_eq!(
        placement_for_pick(&vertices, Some(2)),
        Placement { flag_anchor: vertices[2], player_anchor: vertices[6] }
    );
    assert_eq!(
        placement_for_pick(&vertices, None),
        Placement { flag_anchor: Point { x: 0, y: 0 }, player_anchor: fallback_anchor() }
    );
    assert_eq!(placement_for_pick(&vertices, Some(8)).flag_anchor, Point { x: 0, y: 0 });
}

#[test]
fn flag_is_anchored_to_a_random_vertex() {
    let vertices = ring();
    let mut seen = std::collections::BTreeSet::new();
    for _ in 0..200 {
        let placement = place_player_and_goal(&vertices);
        let index = vertices.iter().position(|v| *v == placement.flag_anchor);
        assert!(index.is_some());
        let index = index.unwrap();
        seen.insert(index);
        assert_eq!(placement.player_anchor, vertices[(index + 4) % 8]);
        assert_eq!(placement, placement_for_pick(&vertices, Some(index)));
    }
    assert!(seen.len() > 1);
}

#[test]
fn single_vertex_is_always_picked() {
    let vertices = vec![Point { x: 5, y: 5 }];
    let placement = place_player_and_goal(&vertices);
    assert_eq!(placement.flag_anchor, Point { x: 5, y: 5 });
    assert_eq!(placement.player_anchor, fallback_anchor());
}

#[test]
fn empty_boundary_anchors_flag_to_the_centre() {
    let placement = place_player_and_goal(&Vec::new());
    assert_eq!(placement.flag_anchor, Point { x: 0, y: 0 });
    assert_eq!(placement.player_anchor, fallback_anchor());
}

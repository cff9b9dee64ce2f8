//! Where the goal flag and the player stand when a level starts.
//!
//! The flag is anchored to a random vertex of the inner boundary. The
//! player is anchored to the first vertex, in boundary order, that lies far
//! enough from the flag, so that the player has to travel to reach it.

use crate::random::choose_index;
use crate::units::Point;
use vstd::prelude::*;

verus! {

/// The player starts further than this from the flag: 1.8 level radii.
pub const MIN_PLAYER_DISTANCE_FROM_FLAG: i64 = 50_400;

/// Height of the fallback anchor: half a level radius below the gravity
/// source.
pub const FALLBACK_ANCHOR_Y: i32 = -14_000;

/// Where the player stands when no vertex is far enough from the flag.
pub open spec fn spec_fallback_anchor() -> Point {
    Point { x: 0, y: FALLBACK_ANCHOR_Y }
}

/// Whether `vertex` is far enough from the flag for the player to start
/// there.
pub open spec fn far_from_flag(vertex: Point, flag: Point) -> bool {
    vertex.spec_distance_squared(flag) > MIN_PLAYER_DISTANCE_FROM_FLAG
        * MIN_PLAYER_DISTANCE_FROM_FLAG
}

/// Whether `index` is the first vertex that is far from the flag.
pub open spec fn is_first_far_vertex(vertices: Seq<Point>, flag: Point, index: int) -> bool {
    &&& 0 <= index < vertices.len()
    &&& far_from_flag(vertices[index], flag)
    &&& forall|j: int| 0 <= j < index ==> !far_from_flag(#[trigger] vertices[j], flag)
}

/// Whether no vertex is far from the flag.
pub open spec fn no_far_vertex(vertices: Seq<Point>, flag: Point) -> bool {
    forall|j: int| 0 <= j < vertices.len() ==> !far_from_flag(#[trigger] vertices[j], flag)
}

/// The anchor of the flag for a given pick among the vertices: the picked
/// vertex, or the gravity source where there is nothing to pick.
pub open spec fn spec_flag_anchor(vertices: Seq<Point>, pick: Option<usize>) -> Point {
    match pick {
        Some(index) if index < vertices.len() => vertices[index as int],
        _ => Point::spec_origin(),
    }
}

/// The anchor of the player for a flag at `flag`: the first vertex far from
/// the flag, or the fallback anchor.
pub open spec fn spec_player_anchor(vertices: Seq<Point>, flag: Point) -> Point {
    if exists|i: int| is_first_far_vertex(vertices, flag, i) {
        vertices[choose|i: int| is_first_far_vertex(vertices, flag, i)]
    } else {
        spec_fallback_anchor()
    }
}

/// The anchors of the flag and of the player.
#[derive(Clone, Copy, Debug, PartialEq, Eq, Structural)]
pub struct Placement {
    pub flag_anchor: Point,
    pub player_anchor: Point,
}

/// At most one vertex is the first far one.
pub proof fn lemma_first_far_vertex_unique(vertices: Seq<Point>, flag: Point, a: int, b: int)
    requires
        is_first_far_vertex(vertices, flag, a),
        is_first_far_vertex(vertices, flag, b),
    ensures
        a == b,
{
    if a < b {
        assert(!far_from_flag(vertices[a], flag));
    } else if b < a {
        assert(!far_from_flag(vertices[b], flag));
    }
}

pub fn fallback_anchor() -> (anchor: Point)
    ensures
        anchor == spec_fallback_anchor(),
{
    Point { x: 0, y: FALLBACK_ANCHOR_Y }
}

/// Finds the first vertex, in order, that is far enough from the flag.
pub fn find_player_anchor(vertices: &Vec<Point>, flag: Point) -> (found: Option<usize>)
    ensures
        match found {
            Some(index) => is_first_far_vertex(vertices@, flag, index as int),
            None => no_far_vertex(vertices@, flag),
        },
{
    let limit: i128 = (MIN_PLAYER_DISTANCE_FROM_FLAG as i128) * (MIN_PLAYER_DISTANCE_FROM_FLAG as i128);
    let mut index: usize = 0;
    while index < vertices.len()
        invariant
            index <= vertices.len(),
            limit == MIN_PLAYER_DISTANCE_FROM_FLAG * MIN_PLAYER_DISTANCE_FROM_FLAG,
            forall|j: int| 0 <= j < index ==> !far_from_flag(#[trigger] vertices@[j], flag),
        decreases vertices.len() - index,
    {
        if vertices[index].distance_squared(&flag) > limit {
            return Some(index);
        }
        index = index + 1;
    }
    None
}

/// The anchor of the player for a flag at `flag`.
pub fn player_anchor(vertices: &Vec<Point>, flag: Point) -> (anchor: Point)
    ensures
        anchor == spec_player_anchor(vertices@, flag),
        no_far_vertex(vertices@, flag) ==> anchor == spec_fallback_anchor(),
        forall|i: int| is_first_far_vertex(vertices@, flag, i) ==> anchor == vertices@[i],
{
    match find_player_anchor(vertices, flag) {
        Some(index) => {
            proof {
                let chosen = choose|i: int| is_first_far_vertex(vertices@, flag, i);
                lemma_first_far_vertex_unique(vertices@, flag, chosen, index as int);
                assert forall|i: int| is_first_far_vertex(vertices@, flag, i) implies index == i by {
                    lemma_first_far_vertex_unique(vertices@, flag, i, index as int);
                }
            }
            vertices[index]
        },
        None => {
            proof {
                assert forall|i: int| !is_first_far_vertex(vertices@, flag, i) by {
                    if 0 <= i < vertices@.len() {
                        assert(!far_from_flag(vertices@[i], flag));
                    }
                }
            }
            fallback_anchor()
        },
    }
}

/// The placement for a given pick of the flag's vertex.
pub fn placement_for_pick(vertices: &Vec<Point>, pick: Option<usize>) -> (placement: Placement)
    ensures
        placement.flag_anchor == spec_flag_anchor(vertices@, pick),
        placement.player_anchor == spec_player_anchor(vertices@, placement.flag_anchor),
{
    let flag_anchor: Point = match pick {
        Some(index) => if index < vertices.len() {
            vertices[index]
        } else {
            Point::origin()
        },
        None => Point::origin(),
    };
    Placement { flag_anchor, player_anchor: player_anchor(vertices, flag_anchor) }
}

/// Anchors the flag to a vertex picked at random and the player to the
/// first vertex far from it. With no vertices the flag is anchored to the
/// gravity source and the player to the fallback anchor.
pub fn place_player_and_goal(vertices: &Vec<Point>) -> (placement: Placement)
    ensures
        vertices@.len() == 0 ==> placement.flag_anchor == Point::spec_origin(),
        vertices@.len() > 0 ==> vertices@.contains(placement.flag_anchor),
        placement.player_anchor == spec_player_anchor(vertices@, placement.flag_anchor),
{
    let pick: Option<usize> = choose_index(vertices.len());
    placement_for_pick(vertices, pick)
}

} // verus!

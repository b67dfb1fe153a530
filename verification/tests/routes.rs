use smart_road::types::{opposite, right_of, routes_conflict, turn_type, Direction, Lane, Route};

#[test]
fn opposite_reverses_each_direction() {
    assert_eq!(opposite(Direction::North), Direction::South);
    assert_eq!(opposite(Direction::South), Direction::North);
    assert_eq!(opposite(Direction::East), Direction::West);
    assert_eq!(opposite(Direction::West), Direction::East);
}

#[test]
fn right_of_turns_clockwise() {
    assert_eq!(right_of(Direction::North), Direction::East);
    assert_eq!(right_of(Direction::East), Direction::South);
    assert_eq!(right_of(Direction::South), Direction::West);
    assert_eq!(right_of(Direction::West), Direction::North);
}

#[test]
fn lane_set_stores_both_ends() {
    let lane = Lane::set(Direction::South, Direction::North);
    assert_eq!(lane.from, Direction::South);
    assert_eq!(lane.to, Direction::North);
}

#[test]
fn turn_types_of_all_twelve_routes() {
    // Straight-through routes exit opposite their origin.
    for (from, to) in [
        (Direction::South, Direction::North),
        (Direction::North, Direction::South),
        (Direction::East, Direction::West),
        (Direction::West, Direction::East),
    ] {
        assert_eq!(turn_type(Lane::set(from, to)), Route::Straight);
    }
    // Right turns, judged from the heading out of the origin: a
    // vehicle from the east heads west, so its right turn exits north.
    for (from, to) in [
        (Direction::South, Direction::East),
        (Direction::North, Direction::West),
        (Direction::East, Direction::North),
        (Direction::West, Direction::South),
    ] {
        assert_eq!(turn_type(Lane::set(from, to)), Route::Right);
    }
    // Left turns are the remaining combinations.
    for (from, to) in [
        (Direction::South, Direction::West),
        (Direction::North, Direction::East),
        (Direction::East, Direction::South),
        (Direction::West, Direction::North),
    ] {
        assert_eq!(turn_type(Lane::set(from, to)), Route::Left);
    }
}

#[test]
fn perpendicular_straight_routes_conflict() {
    let south_north = Lane::set(Direction::South, Direction::North);
    let east_west = Lane::set(Direction::East, Direction::West);
    assert!(routes_conflict(south_north, east_west));
    assert!(routes_conflict(east_west, south_north));
}

#[test]
fn same_route_does_not_conflict() {
    let south_north = Lane::set(Direction::South, Direction::North);
    assert!(!routes_conflict(south_north, south_north));
}

#[test]
fn parallel_exits_do_not_conflict() {
    let south_north = Lane::set(Direction::South, Direction::North);
    let north_south = Lane::set(Direction::North, Direction::South);
    assert!(!routes_conflict(south_north, north_south));
}

#[test]
fn right_turns_never_conflict() {
    let south_north = Lane::set(Direction::South, Direction::North);
    let north_west = Lane::set(Direction::North, Direction::West);
    // North -> West exits on the perpendicular axis, but a right turn
    // hugs its corner and is defined not to conflict.
    assert_eq!(turn_type(north_west), Route::Right);
    assert!(!routes_conflict(south_north, north_west));
    assert!(!routes_conflict(north_west, south_north));
}

#[test]
fn left_turn_onto_perpendicular_exit_conflicts() {
    let south_north = Lane::set(Direction::South, Direction::North);
    let south_west = Lane::set(Direction::South, Direction::West);
    assert_eq!(turn_type(south_west), Route::Left);
    assert!(routes_conflict(south_north, south_west));
}

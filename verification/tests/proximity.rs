use smart_road::collision::{min_ahead_dist2, near_miss_pair, Collision};
use smart_road::input::{entry_point, is_lane_spawn_safe};
use smart_road::types::{opposite, Direction, Lane, VehicleColor, VehicleState};
use smart_road::vehicle::Vehicle;

fn vehicle(id: usize, x: i64, y: i64, from: Direction, to: Direction, state: VehicleState) -> Vehicle {
    Vehicle {
        id,
        x,
        y,
        lane: Lane::set(from, to),
        direction: opposite(from),
        state,
        color: VehicleColor::Blue,
        speed: 10,
        collision: Collision::new(id, x, y),
        entered_intersection: false,
        time_in_intersection: 0,
        max_speed_reached: 10,
        min_speed_reached: 10,
        had_close_call: false,
    }
}

#[test]
fn detector_returns_the_nearest_vehicle_ahead() {
    let me = vehicle(0, 4000, 6000, Direction::South, Direction::North, VehicleState::Approaching);
    let near = vehicle(1, 4000, 5500, Direction::South, Direction::North, VehicleState::Approaching);
    let far = vehicle(2, 4000, 5300, Direction::South, Direction::North, VehicleState::Approaching);
    let behind = vehicle(3, 4000, 6500, Direction::South, Direction::North, VehicleState::Approaching);
    let lateral = vehicle(4, 4300, 5500, Direction::South, Direction::North, VehicleState::Approaching);
    let pop = vec![far.clone(), behind, lateral, near.clone(), me.clone()];
    let found = Collision::check_vehicle_ahead(&me, pop.as_slice()).expect("a vehicle is ahead");
    assert_eq!(found.id, near.id);
    assert_eq!(min_ahead_dist2(&me, pop.as_slice()), Some(500 * 500));
}

#[test]
fn detector_ignores_a_clear_corridor() {
    let me = vehicle(0, 4000, 6000, Direction::South, Direction::North, VehicleState::Approaching);
    // Too far ahead (more than safe distance + margin), too far to the
    // side, or behind: none qualifies.
    let too_far = vehicle(1, 4000, 4700, Direction::South, Direction::North, VehicleState::Approaching);
    let too_lateral = vehicle(2, 4260, 5800, Direction::South, Direction::North, VehicleState::Approaching);
    let behind = vehicle(3, 4000, 6010, Direction::South, Direction::North, VehicleState::Approaching);
    let pop = vec![too_far, too_lateral, behind, me.clone()];
    assert!(Collision::check_vehicle_ahead(&me, pop.as_slice()).is_none());
    assert_eq!(min_ahead_dist2(&me, pop.as_slice()), None);
}

#[test]
fn in_path_check_radius_is_inclusive() {
    let me = vehicle(0, 4000, 6000, Direction::South, Direction::North, VehicleState::Approaching);
    let at_radius = vehicle(1, 4000, 4800, Direction::South, Direction::North, VehicleState::Approaching);
    assert!(Collision::is_vehicle_in_path(&me, &at_radius, 1200));
    assert!(!Collision::is_vehicle_in_path(&me, &at_radius, 1199));
}

#[test]
fn conflicting_occupant_forces_waiting_decision() {
    let me = vehicle(0, 4375, 5200, Direction::South, Direction::North, VehicleState::Approaching);
    let occupant = vehicle(1, 4000, 3300, Direction::East, Direction::West, VehicleState::Crossing);
    let pop = vec![me.clone(), occupant];
    assert!(Collision::is_vehicle_in_intersection(&pop[1]));
    assert_eq!(Collision::count_conflicting_vehicles_in_intersection(&me, pop.as_slice()), 1);
    assert!(Collision::should_wait_for_intersection(&me, pop.as_slice()));
}

#[test]
fn right_turning_occupant_does_not_block() {
    let me = vehicle(0, 4375, 5200, Direction::South, Direction::North, VehicleState::Approaching);
    let right_turner = vehicle(1, 2950, 3300, Direction::North, Direction::West, VehicleState::Crossing);
    let pop = vec![me.clone(), right_turner];
    assert!(!Collision::should_wait_for_intersection(&me, pop.as_slice()));
}

#[test]
fn occupant_outside_the_box_does_not_block() {
    let me = vehicle(0, 4375, 5200, Direction::South, Direction::North, VehicleState::Approaching);
    let outside = vehicle(1, 8000, 3300, Direction::East, Direction::West, VehicleState::Approaching);
    let pop = vec![me.clone(), outside];
    assert!(!Collision::should_wait_for_intersection(&me, pop.as_slice()));
}

#[test]
fn near_miss_needs_the_intersection_and_the_corridor() {
    let a = vehicle(0, 4000, 4600, Direction::South, Direction::North, VehicleState::Crossing);
    let b = vehicle(1, 4000, 4000, Direction::South, Direction::North, VehicleState::Crossing);
    assert!(near_miss_pair(&a, &b));
    assert!(near_miss_pair(&b, &a));
    // The same pair far from the intersection is no near miss.
    let c = vehicle(2, 4000, 7600, Direction::South, Direction::North, VehicleState::Approaching);
    let d = vehicle(3, 4000, 7000, Direction::South, Direction::North, VehicleState::Approaching);
    assert!(!near_miss_pair(&c, &d));
    // Vehicles farther apart than the safe distance are no near miss.
    let e = vehicle(4, 4000, 3000, Direction::South, Direction::North, VehicleState::Crossing);
    assert!(!near_miss_pair(&a, &e));
}

#[test]
fn spawn_is_unsafe_with_a_vehicle_at_the_entry_point() {
    let lane = Lane::set(Direction::South, Direction::North);
    let (x, y) = entry_point(lane);
    let squatter = vehicle(7, x, y, Direction::South, Direction::North, VehicleState::Approaching);
    let pop = vec![squatter];
    assert!(!is_lane_spawn_safe(x, y, lane, pop.as_slice()));
}

#[test]
fn spawn_ignores_vehicles_on_other_routes() {
    let lane = Lane::set(Direction::South, Direction::North);
    let (x, y) = entry_point(lane);
    // A vehicle at the same spot but on another route does not block
    // this lane's spawn.
    let other_route = vehicle(7, x, y, Direction::South, Direction::West, VehicleState::Approaching);
    let pop = vec![other_route];
    assert!(is_lane_spawn_safe(x, y, lane, pop.as_slice()));
}

#[test]
fn spawn_corridor_reaches_ahead_of_the_entry() {
    let lane = Lane::set(Direction::South, Direction::North);
    let (x, y) = entry_point(lane);
    // Same route, 1000 ahead of the entry along the spawn heading:
    // outside the near radius but inside the extended corridor.
    let ahead = vehicle(7, x, y - 1000, Direction::South, Direction::North, VehicleState::Approaching);
    let pop = vec![ahead];
    assert!(!is_lane_spawn_safe(x, y, lane, pop.as_slice()));
    // At 1300 ahead the corridor no longer reaches it.
    let far = vehicle(8, x, y - 1300, Direction::South, Direction::North, VehicleState::Approaching);
    let pop2 = vec![far];
    assert!(is_lane_spawn_safe(x, y, lane, pop2.as_slice()));
}

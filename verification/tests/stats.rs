use smart_road::collision::Collision;
use smart_road::statistics::Statistics;
use smart_road::types::{opposite, Direction, Lane, VehicleColor, VehicleState};
use smart_road::vehicle::Vehicle;

fn completed_vehicle(
    id: usize,
    max_speed: i64,
    min_speed: i64,
    entered: bool,
    time: u64,
    close: bool,
) -> Vehicle {
    Vehicle {
        id,
        x: 4375,
        y: -600,
        lane: Lane::set(Direction::South, Direction::North),
        direction: Direction::North,
        state: VehicleState::Exiting,
        color: VehicleColor::Blue,
        speed: min_speed,
        collision: Collision::new(id, 4375, -600),
        entered_intersection: entered,
        time_in_intersection: time,
        max_speed_reached: max_speed,
        min_speed_reached: min_speed,
        had_close_call: close,
    }
}

fn live_vehicle(id: usize, x: i64, y: i64, speed: i64) -> Vehicle {
    Vehicle {
        id,
        x,
        y,
        lane: Lane::set(Direction::South, Direction::North),
        direction: opposite(Direction::South),
        state: VehicleState::Approaching,
        color: VehicleColor::Pink,
        speed,
        collision: Collision::new(id, x, y),
        entered_intersection: false,
        time_in_intersection: 0,
        max_speed_reached: speed,
        min_speed_reached: speed,
        had_close_call: false,
    }
}

#[test]
fn intersection_stats_exact_values() {
    let completed = vec![
        completed_vehicle(0, 18, 3, true, 140, true),
        completed_vehicle(1, 15, 5, true, 100, false),
        completed_vehicle(2, 12, 7, false, 0, true),
    ];
    let mut stats = Statistics::new();
    stats.calculate_intersection_stats(completed.as_slice());
    assert_eq!(stats.max_vehicles_passed, 3);
    assert_eq!(stats.max_velocity, 18);
    assert_eq!(stats.min_velocity, 3);
    assert_eq!(stats.max_crossing_time, 140);
    assert_eq!(stats.min_crossing_time, 100);
    assert_eq!(stats.close_calls, 2);
}

#[test]
fn intersection_stats_unchanged_when_nothing_completed() {
    let mut stats = Statistics::new();
    stats.calculate_intersection_stats(&[]);
    assert_eq!(stats, Statistics::new());
}

#[test]
fn crossing_times_kept_while_no_vehicle_entered() {
    let completed = vec![completed_vehicle(0, 12, 7, false, 0, false)];
    let mut stats = Statistics::new();
    stats.calculate_intersection_stats(completed.as_slice());
    assert_eq!(stats.max_vehicles_passed, 1);
    assert_eq!(stats.max_velocity, 12);
    assert_eq!(stats.min_velocity, 7);
    // The sentinel crossing times of a fresh accumulator survive.
    assert_eq!(stats.max_crossing_time, 0);
    assert_eq!(stats.min_crossing_time, u64::MAX);
    assert_eq!(stats.close_calls, 0);
}

#[test]
fn simple_stats_count_close_pairs_once_per_vehicle() {
    let vehicles = vec![
        live_vehicle(0, 4000, 6000, 9),
        live_vehicle(1, 4000, 6500, 14),
        live_vehicle(2, 0, 0, 11),
    ];
    let mut stats = Statistics::new();
    stats.calculate_simple_stats(vehicles.as_slice());
    assert_eq!(stats.max_vehicles_passed, 3);
    assert_eq!(stats.max_velocity, 14);
    assert_eq!(stats.min_velocity, 9);
    // Vehicles 0 and 1 are 500 apart, inside the safe distance; vehicle
    // 2 is far away.  Only vehicle 0 has a close later neighbour.
    assert_eq!(stats.close_calls, 1);
}

#[test]
fn simple_stats_unchanged_on_an_empty_population() {
    let mut stats = Statistics::new();
    stats.calculate_simple_stats(&[]);
    assert_eq!(stats, Statistics::new());
}

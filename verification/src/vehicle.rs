//! The vehicle record, its well-formedness invariant, and its per-tick
//! update.

use vstd::prelude::*;

use crate::collision::{
    all_pos_bounded, has_conflicting_contender, min_ahead_dist2, opt_dist, pos_bounded,
    spec_conflict_contender, spec_conflict_occupant, spec_entry_candidate,
    spec_is_conflicting_contender, spec_min_ahead_dist2, Collision,
};
use crate::config::{
    BRAKE_FLOOR, BRAKE_ZONE, CRUISE_SPEED, DECEL_STEP, ACCEL_STEP, INTERSECTION_CENTER, MAX_SPEED,
    MIN_SPEED, SAFE_DISTANCE, SLOW_BAND, SLOW_BASE, SLOW_SPAN, SPAWN_SPEED_CHOICES,
    SPAWN_SPEED_MIN, STOP_ZONE,
};
use crate::geometry::{
    dist_to_stop_line, in_intersection, isqrt, lemma_sqrt_floor_ge_of_square_le,
    lemma_sqrt_floor_lt_of_lt_square, past_intersection, spec_dist2, spec_dist_to_stop_line,
    spec_in_intersection, spec_past_intersection, sqrt_floor, COORD_LIMIT,
};
use crate::random::random_below;
use crate::types::{
    lane_valid, opposite, spec_initial_heading, Direction, Lane, VehicleColor, VehicleState,
};

verus! {

/// One vehicle of the simulation.
///
/// The motion state machine is Approaching -> Waiting -> Approaching ->
/// Crossing -> Exiting: an approaching vehicle is held (Waiting) while a
/// conflicting route occupies the intersection or a vehicle ahead is too
/// close, resumes when both clear, becomes Crossing inside the
/// intersection box, and Exiting once past it.
#[derive(Copy, Clone, Eq, PartialEq, Hash, Debug, Structural)]
pub struct Vehicle {
    pub id: usize,
    pub x: i64,
    pub y: i64,
    pub lane: Lane,
    pub direction: Direction,
    pub state: VehicleState,
    pub color: VehicleColor,
    pub speed: i64,
    pub collision: Collision,
    pub entered_intersection: bool,
    pub time_in_intersection: u64,
    pub max_speed_reached: i64,
    pub min_speed_reached: i64,
    pub had_close_call: bool,
}

/// Whether a vehicle at `(x, y)` heading `d` has reached the point where
/// its turn onto `to` is taken.  Each threshold lies inside the box, more
/// than one tick's travel from both of its edges: right turns switch
/// close to their entry corner, left turns around the middle.
pub open spec fn spec_turn_reached(d: Direction, to: Direction, x: int, y: int) -> bool {
    match (d, to) {
        (Direction::North, Direction::East) => y <= 4725,
        (Direction::North, Direction::West) => y <= 3675,
        (Direction::South, Direction::East) => y >= 3950,
        (Direction::South, Direction::West) => y >= 3000,
        (Direction::West, Direction::North) => x <= 4725,
        (Direction::West, Direction::South) => x <= 3675,
        (Direction::East, Direction::North) => x >= 4005,
        (Direction::East, Direction::South) => x >= 3000,
        _ => false,
    }
}

/// Exec mirror of `spec_turn_reached`.
pub fn turn_reached(d: Direction, to: Direction, x: i64, y: i64) -> (r: bool)
    ensures
        r == spec_turn_reached(d, to, x as int, y as int),
{
    match (d, to) {
        (Direction::North, Direction::East) => y <= 4725,
        (Direction::North, Direction::West) => y <= 3675,
        (Direction::South, Direction::East) => y >= 3950,
        (Direction::South, Direction::West) => y >= 3000,
        (Direction::West, Direction::North) => x <= 4725,
        (Direction::West, Direction::South) => x <= 3675,
        (Direction::East, Direction::North) => x >= 4005,
        (Direction::East, Direction::South) => x >= 3000,
        _ => false,
    }
}

/// Whether the vehicle stands in the holding zone just before its stop
/// line, where the access policy can make it wait.
pub open spec fn spec_in_stop_zone(v: Vehicle) -> bool {
    0 < spec_dist_to_stop_line(v.direction, v.x as int, v.y as int) <= STOP_ZONE
}

/// The well-formedness invariant of a vehicle: bounded speeds, a
/// consistent collision record, a heading that matches its lane and
/// phase, and a motion state that matches its position relative to the
/// intersection box.
pub open spec fn vehicle_wf(v: Vehicle) -> bool {
    &&& lane_valid(v.lane)
    &&& MIN_SPEED <= v.speed <= MAX_SPEED
    &&& MIN_SPEED <= v.min_speed_reached <= v.speed
    &&& v.speed <= v.max_speed_reached <= MAX_SPEED
    &&& v.collision.vehicle_id == v.id
    &&& v.collision.x == v.x
    &&& v.collision.y == v.y
    &&& v.collision.safe_distance == SAFE_DISTANCE
    &&& v.direction == spec_initial_heading(v.lane) || v.direction == v.lane.to
    &&& (v.state == VehicleState::Approaching || v.state == VehicleState::Waiting)
        ==> v.direction == spec_initial_heading(v.lane)
    &&& (v.state == VehicleState::Approaching || v.state == VehicleState::Waiting)
        ==> !spec_in_intersection(v.x as int, v.y as int)
    &&& v.state == VehicleState::Crossing ==> spec_in_intersection(v.x as int, v.y as int)
    &&& v.state == VehicleState::Exiting ==> spec_past_intersection(
        v.direction,
        v.x as int,
        v.y as int,
    )
    &&& (v.state == VehicleState::Crossing && v.direction == spec_initial_heading(v.lane)
        && v.lane.to != v.direction) ==> !spec_turn_reached(
        v.direction,
        v.lane.to,
        v.x as int,
        v.y as int,
    )
}

/// The vehicle record a spawn creates, before randomness picks the
/// colour and the speed.
pub open spec fn spec_fresh_vehicle(
    id: usize,
    x: i64,
    y: i64,
    lane: Lane,
    color: VehicleColor,
    speed: i64,
) -> Vehicle {
    Vehicle {
        id,
        x,
        y,
        lane,
        direction: spec_initial_heading(lane),
        state: VehicleState::Approaching,
        color,
        speed,
        collision: Collision { vehicle_id: id, x, y, safe_distance: SAFE_DISTANCE },
        entered_intersection: false,
        time_in_intersection: 0,
        max_speed_reached: speed,
        min_speed_reached: speed,
        had_close_call: false,
    }
}

impl Vehicle {
    /// Builds a vehicle with every attribute chosen by the caller.
    pub fn with_attributes(
        id: usize,
        x: i64,
        y: i64,
        lane: Lane,
        color: VehicleColor,
        speed: i64,
    ) -> (r: Self)
        requires
            lane_valid(lane),
            !spec_in_intersection(x as int, y as int),
            MIN_SPEED <= speed <= MAX_SPEED,
        ensures
            r == spec_fresh_vehicle(id, x, y, lane, color, speed),
            vehicle_wf(r),
    {
        let direction = opposite(lane.from);
        Vehicle {
            id,
            x,
            y,
            lane,
            direction,
            state: VehicleState::Approaching,
            color,
            speed,
            collision: Collision::new(id, x, y),
            entered_intersection: false,
            time_in_intersection: 0,
            max_speed_reached: speed,
            min_speed_reached: speed,
            had_close_call: false,
        }
    }

    /// Builds a vehicle at a spawn point, drawing its colour and its
    /// initial speed at random.
    pub fn new(id: usize, x: i64, y: i64, lane: Lane) -> (r: Self)
        requires
            lane_valid(lane),
            !spec_in_intersection(x as int, y as int),
        ensures
            SPAWN_SPEED_MIN <= r.speed < SPAWN_SPEED_MIN + SPAWN_SPEED_CHOICES,
            r == spec_fresh_vehicle(id, x, y, lane, r.color, r.speed),
            vehicle_wf(r),
    {
        let color = match random_below(4) {
            0u32 => VehicleColor::Blue,
            1u32 => VehicleColor::Green,
            2u32 => VehicleColor::Pink,
            _ => VehicleColor::Yellow,
        };
        let speed = SPAWN_SPEED_MIN + random_below(SPAWN_SPEED_CHOICES) as i64;
        Vehicle::with_attributes(id, x, y, lane, color, speed)
    }

    /// Advances the vehicle by one tick against a pre-tick snapshot of
    /// the population: decides whether it must wait, adjusts its speed
    /// toward the policy's target, moves it, and takes the state and
    /// heading transitions its new position calls for.  The result is
    /// exactly `spec_step` of the old record and the snapshot, so the
    /// update is a pure function of that snapshot.
    pub fn update(&mut self, vehicles: &[Vehicle])
        requires
            vehicle_wf(*old(self)),
            pos_bounded(*old(self)),
            all_pos_bounded(vehicles@),
        ensures
            *final(self) == spec_step(*old(self), vehicles@),
            vehicle_wf(*final(self)),
    {
        let cur: Vehicle = *self;
        let m = min_ahead_dist2(&cur, vehicles);
        let too_close = match m {
            Some(d2) => d2 < SAFE_DISTANCE * SAFE_DISTANCE,
            None => false,
        };
        let approaching_phase = cur.state == VehicleState::Approaching || cur.state
            == VehicleState::Waiting;
        let stop_distance = dist_to_stop_line(cur.direction, cur.x, cur.y);
        let in_zone = 0 < stop_distance && stop_distance <= STOP_ZONE;
        let held_at_line = in_zone && (Collision::should_wait_for_intersection(&cur, vehicles)
            || has_conflicting_contender(&cur, vehicles));
        let blocked = approaching_phase && (held_at_line || too_close);
        let state1 = if approaching_phase {
            if blocked {
                VehicleState::Waiting
            } else {
                VehicleState::Approaching
            }
        } else {
            cur.state
        };
        let target: i64 = if state1 == VehicleState::Waiting {
            0
        } else {
            target_speed_from(&cur, m)
        };
        let speed1 = approach_speed(cur.speed, target);
        let moves = state1 != VehicleState::Waiting;
        let x1 = if moves {
            move_x(cur.direction, cur.x, speed1)
        } else {
            cur.x
        };
        let y1 = if moves {
            move_y(cur.direction, cur.y, speed1)
        } else {
            cur.y
        };
        let entering = state1 == VehicleState::Approaching && in_intersection(x1, y1);
        let state2 = if entering {
            VehicleState::Crossing
        } else {
            state1
        };
        let turning = state2 == VehicleState::Crossing && cur.direction != cur.lane.to
            && turn_reached(cur.direction, cur.lane.to, x1, y1);
        let dir1 = if turning {
            cur.lane.to
        } else {
            cur.direction
        };
        let state3 = if state2 == VehicleState::Crossing && past_intersection(dir1, x1, y1) {
            VehicleState::Exiting
        } else {
            state2
        };
        let in_box_now = in_intersection(x1, y1);
        let time1 = if in_box_now {
            if cur.time_in_intersection < u64::MAX {
                cur.time_in_intersection + 1
            } else {
                cur.time_in_intersection
            }
        } else {
            cur.time_in_intersection
        };
        let maxs = if speed1 > cur.max_speed_reached {
            speed1
        } else {
            cur.max_speed_reached
        };
        let mins = if speed1 < cur.min_speed_reached {
            speed1
        } else {
            cur.min_speed_reached
        };
        *self = Vehicle {
            x: x1,
            y: y1,
            direction: dir1,
            state: state3,
            speed: speed1,
            collision: Collision { vehicle_id: cur.id, x: x1, y: y1, safe_distance: SAFE_DISTANCE },
            entered_intersection: cur.entered_intersection || in_box_now,
            time_in_intersection: time1,
            max_speed_reached: maxs,
            min_speed_reached: mins,
            ..cur
        };
        proof {
            lemma_step_preserves_wf(cur, vehicles@);
        }
    }

    /// Euclidean distance from the vehicle to the centre of the
    /// intersection, rounded down.
    pub fn distance_to_intersection(&self) -> (r: i64)
        requires
            -COORD_LIMIT <= self.x <= COORD_LIMIT,
            -COORD_LIMIT <= self.y <= COORD_LIMIT,
        ensures
            r == sqrt_floor(
                spec_dist2(
                    self.x as int,
                    self.y as int,
                    INTERSECTION_CENTER as int,
                    INTERSECTION_CENTER as int,
                ),
            ),
    {
        let d2 = crate::geometry::dist2(self.x, self.y, INTERSECTION_CENTER, INTERSECTION_CENTER);
        isqrt(d2)
    }
}

/// A qualifying vehicle ahead sits closer than the safe following
/// distance, which forces the follower to a halt.
pub open spec fn spec_too_close_ahead(v: Vehicle, s: Seq<Vehicle>) -> bool {
    match spec_min_ahead_dist2(v, s) {
        Some(d2) => d2 < SAFE_DISTANCE * SAFE_DISTANCE,
        None => false,
    }
}

/// Whether the tick holds the vehicle in place.  Only vehicles still on
/// their approach can wait, and they wait for one of three reasons: a
/// conflicting occupant of the intersection seen from the stop-line
/// zone; a prioritised conflicting vehicle about to reach the box in
/// the same tick (the deterministic tie-break that rules out two
/// conflicting routes entering together); or a vehicle ahead inside the
/// safe following distance.
pub open spec fn spec_blocked(v: Vehicle, s: Seq<Vehicle>) -> bool {
    &&& v.state == VehicleState::Approaching || v.state == VehicleState::Waiting
    &&& ((spec_in_stop_zone(v) && (spec_conflict_occupant(v, s) || spec_conflict_contender(v, s)))
        || spec_too_close_ahead(v, s))
}

/// Target speed when no vehicle ahead constrains it: brake linearly,
/// never below a floor, while approaching the stop line; cruise
/// otherwise.
pub open spec fn spec_open_road_target(v: Vehicle) -> int {
    let d = spec_dist_to_stop_line(v.direction, v.x as int, v.y as int);
    if (v.state == VehicleState::Approaching || v.state == VehicleState::Waiting) && 0 < d
        <= BRAKE_ZONE {
        let braked = CRUISE_SPEED * d / (BRAKE_ZONE as int);
        if braked > BRAKE_FLOOR {
            braked
        } else {
            BRAKE_FLOOR as int
        }
    } else {
        CRUISE_SPEED as int
    }
}

/// Target speed given the squared distance to the nearest vehicle ahead:
/// zero inside the safe distance, interpolated across the band just past
/// it, and the open-road target beyond.
pub open spec fn spec_target_from(v: Vehicle, m: Option<int>) -> int {
    match m {
        Some(d2) => if d2 < SAFE_DISTANCE * SAFE_DISTANCE {
            0
        } else if d2 < (SAFE_DISTANCE + SLOW_BAND) * (SAFE_DISTANCE + SLOW_BAND) {
            SLOW_BASE + SLOW_SPAN * (sqrt_floor(d2) - SAFE_DISTANCE) / (SLOW_BAND as int)
        } else {
            spec_open_road_target(v)
        },
        None => spec_open_road_target(v),
    }
}

/// One rate-limited move of the current speed toward the target:
/// acceleration and deceleration are each capped per tick, deceleration
/// being the quicker.
pub open spec fn spec_approach_speed(cur: int, target: int) -> int {
    if target > cur {
        if cur + ACCEL_STEP < target {
            cur + ACCEL_STEP
        } else {
            target
        }
    } else if target < cur {
        if cur - DECEL_STEP > target {
            cur - DECEL_STEP
        } else {
            target
        }
    } else {
        cur
    }
}

/// The x coordinate after moving `s` along heading `d`.
pub open spec fn spec_move_x(d: Direction, x: int, s: int) -> int {
    match d {
        Direction::East => x + s,
        Direction::West => x - s,
        _ => x,
    }
}

/// The y coordinate after moving `s` along heading `d`.
pub open spec fn spec_move_y(d: Direction, y: int, s: int) -> int {
    match d {
        Direction::North => y - s,
        Direction::South => y + s,
        _ => y,
    }
}

/// One tick of a single vehicle against the pre-tick snapshot `s`, as a
/// pure function of the two; `Vehicle::update` returns exactly this.
pub open spec fn spec_step(v: Vehicle, s: Seq<Vehicle>) -> Vehicle {
    let m = spec_min_ahead_dist2(v, s);
    let approaching_phase = v.state == VehicleState::Approaching || v.state
        == VehicleState::Waiting;
    let blocked = spec_blocked(v, s);
    let state1 = if approaching_phase {
        if blocked {
            VehicleState::Waiting
        } else {
            VehicleState::Approaching
        }
    } else {
        v.state
    };
    let target = if state1 == VehicleState::Waiting {
        0
    } else {
        spec_target_from(v, m)
    };
    let speed1 = spec_approach_speed(v.speed as int, target);
    let moves = state1 != VehicleState::Waiting;
    let x1 = if moves {
        spec_move_x(v.direction, v.x as int, speed1)
    } else {
        v.x as int
    };
    let y1 = if moves {
        spec_move_y(v.direction, v.y as int, speed1)
    } else {
        v.y as int
    };
    let entering = state1 == VehicleState::Approaching && spec_in_intersection(x1, y1);
    let state2 = if entering {
        VehicleState::Crossing
    } else {
        state1
    };
    let turning = state2 == VehicleState::Crossing && v.direction != v.lane.to
        && spec_turn_reached(v.direction, v.lane.to, x1, y1);
    let dir1 = if turning {
        v.lane.to
    } else {
        v.direction
    };
    let state3 = if state2 == VehicleState::Crossing && spec_past_intersection(dir1, x1, y1) {
        VehicleState::Exiting
    } else {
        state2
    };
    let in_box_now = spec_in_intersection(x1, y1);
    let time1 = if in_box_now {
        if v.time_in_intersection < u64::MAX {
            v.time_in_intersection + 1
        } else {
            v.time_in_intersection as int
        }
    } else {
        v.time_in_intersection as int
    };
    Vehicle {
        x: x1 as i64,
        y: y1 as i64,
        direction: dir1,
        state: state3,
        speed: speed1 as i64,
        collision: Collision {
            vehicle_id: v.id,
            x: x1 as i64,
            y: y1 as i64,
            safe_distance: SAFE_DISTANCE,
        },
        entered_intersection: v.entered_intersection || in_box_now,
        time_in_intersection: time1 as u64,
        max_speed_reached: if speed1 > v.max_speed_reached {
            speed1 as i64
        } else {
            v.max_speed_reached
        },
        min_speed_reached: if speed1 < v.min_speed_reached {
            speed1 as i64
        } else {
            v.min_speed_reached
        },
        ..v
    }
}

/// Target speed when no vehicle ahead constrains it; exec mirror of
/// `spec_open_road_target`.
fn open_road_target(v: &Vehicle) -> (r: i64)
    requires
        pos_bounded(*v),
    ensures
        r == spec_open_road_target(*v),
        MIN_SPEED <= r <= MAX_SPEED,
{
    let d = dist_to_stop_line(v.direction, v.x, v.y);
    let phase = v.state == VehicleState::Approaching || v.state == VehicleState::Waiting;
    if phase && 0 < d && d <= BRAKE_ZONE {
        let braked = CRUISE_SPEED * d / BRAKE_ZONE;
        if braked > BRAKE_FLOOR {
            braked
        } else {
            BRAKE_FLOOR
        }
    } else {
        CRUISE_SPEED
    }
}

/// Exec mirror of `spec_target_from`, fed with the detector's result.
fn target_speed_from(v: &Vehicle, m: Option<i64>) -> (r: i64)
    requires
        pos_bounded(*v),
        m matches Some(d) ==> 0 <= d <= 80_000_000_000,
    ensures
        r == spec_target_from(*v, opt_dist(m)),
        MIN_SPEED <= r <= MAX_SPEED,
{
    match m {
        Some(d2) => {
            if d2 < SAFE_DISTANCE * SAFE_DISTANCE {
                0
            } else if d2 < (SAFE_DISTANCE + SLOW_BAND) * (SAFE_DISTANCE + SLOW_BAND) {
                let d = isqrt(d2);
                proof {
                    lemma_sqrt_floor_ge_of_square_le(d2 as int, SAFE_DISTANCE as int);
                    lemma_sqrt_floor_lt_of_lt_square(d2 as int, (SAFE_DISTANCE + SLOW_BAND) as int);
                }
                SLOW_BASE + SLOW_SPAN * (d - SAFE_DISTANCE) / SLOW_BAND
            } else {
                open_road_target(v)
            }
        },
        None => open_road_target(v),
    }
}

/// Exec mirror of `spec_approach_speed`.
fn approach_speed(cur: i64, target: i64) -> (r: i64)
    requires
        MIN_SPEED <= cur <= MAX_SPEED,
        MIN_SPEED <= target <= MAX_SPEED,
    ensures
        r == spec_approach_speed(cur as int, target as int),
        MIN_SPEED <= r <= MAX_SPEED,
{
    if target > cur {
        let stepped = cur + ACCEL_STEP;
        if stepped < target {
            stepped
        } else {
            target
        }
    } else if target < cur {
        let stepped = cur - DECEL_STEP;
        if stepped > target {
            stepped
        } else {
            target
        }
    } else {
        cur
    }
}

/// Exec mirror of `spec_move_x`.
fn move_x(d: Direction, x: i64, s: i64) -> (r: i64)
    requires
        -COORD_LIMIT <= x <= COORD_LIMIT,
        0 <= s <= MAX_SPEED,
    ensures
        r == spec_move_x(d, x as int, s as int),
{
    match d {
        Direction::East => x + s,
        Direction::West => x - s,
        _ => x,
    }
}

/// Exec mirror of `spec_move_y`.
fn move_y(d: Direction, y: i64, s: i64) -> (r: i64)
    requires
        -COORD_LIMIT <= y <= COORD_LIMIT,
        0 <= s <= MAX_SPEED,
    ensures
        r == spec_move_y(d, y as int, s as int),
{
    match d {
        Direction::North => y - s,
        Direction::South => y + s,
        _ => y,
    }
}

/// The squared distance between two vehicles is never negative.
pub proof fn lemma_vehicle_dist2_nonneg(a: Vehicle, b: Vehicle)
    ensures
        crate::collision::spec_vehicle_dist2(a, b) >= 0,
{
    let dx = a.x - b.x;
    let dy = a.y - b.y;
    assert(dx * dx >= 0) by (nonlinear_arith);
    assert(dy * dy >= 0) by (nonlinear_arith);
}

/// The minimum ahead-distance of the detector, when present, is a
/// squared distance and hence nonnegative.
pub proof fn lemma_min_ahead_dist2_nonneg(v: Vehicle, s: Seq<Vehicle>)
    ensures
        spec_min_ahead_dist2(v, s) matches Some(m) ==> m >= 0,
{
    match spec_min_ahead_dist2(v, s) {
        Some(m) => {
            crate::collision::lemma_min_ahead_dist2_props(v, s, s.len() as int);
            let i = choose|i: int|
                0 <= i < s.len() && crate::collision::spec_qualifies_ahead(v, #[trigger] s[i])
                    && crate::collision::spec_vehicle_dist2(v, s[i]) == m;
            lemma_vehicle_dist2_nonneg(v, s[i]);
        },
        None => {},
    }
}

/// The target speed the policy aims for always lies within the legal
/// speed range.
pub proof fn lemma_target_from_bounds(v: Vehicle, s: Seq<Vehicle>)
    ensures
        MIN_SPEED <= spec_target_from(v, spec_min_ahead_dist2(v, s)) <= MAX_SPEED,
{
    lemma_min_ahead_dist2_nonneg(v, s);
    match spec_min_ahead_dist2(v, s) {
        Some(d2) => {
            if d2 < SAFE_DISTANCE * SAFE_DISTANCE {
            } else if d2 < (SAFE_DISTANCE + SLOW_BAND) * (SAFE_DISTANCE + SLOW_BAND) {
                lemma_sqrt_floor_ge_of_square_le(d2, SAFE_DISTANCE as int);
                lemma_sqrt_floor_lt_of_lt_square(d2, (SAFE_DISTANCE + SLOW_BAND) as int);
            }
        },
        None => {},
    }
}

/// One tick keeps a well-formed vehicle well-formed.
pub proof fn lemma_step_preserves_wf(v: Vehicle, s: Seq<Vehicle>)
    requires
        vehicle_wf(v),
        pos_bounded(v),
    ensures
        vehicle_wf(spec_step(v, s)),
{
    lemma_target_from_bounds(v, s);
}

/// A tick moves a vehicle by at most one maximum speed along each axis
/// and never changes its identity, lane or colour.  Unless the tick
/// ends Waiting — in which case the vehicle is held in place — the
/// position advances by exactly the new speed along the heading held
/// at move time.
pub proof fn lemma_step_position_delta(v: Vehicle, s: Seq<Vehicle>)
    requires
        vehicle_wf(v),
        pos_bounded(v),
    ensures
        v.x - MAX_SPEED <= spec_step(v, s).x <= v.x + MAX_SPEED,
        v.y - MAX_SPEED <= spec_step(v, s).y <= v.y + MAX_SPEED,
        spec_step(v, s).id == v.id,
        spec_step(v, s).lane == v.lane,
        spec_step(v, s).color == v.color,
        spec_step(v, s).state == VehicleState::Waiting ==> spec_step(v, s).x == v.x && spec_step(
            v,
            s,
        ).y == v.y,
        spec_step(v, s).state != VehicleState::Waiting ==> spec_step(v, s).x == spec_move_x(
            v.direction,
            v.x as int,
            spec_step(v, s).speed as int,
        ) && spec_step(v, s).y == spec_move_y(
            v.direction,
            v.y as int,
            spec_step(v, s).speed as int,
        ),
{
    lemma_target_from_bounds(v, s);
}

/// Law: whatever the snapshot, the speed a tick leaves a well-formed
/// vehicle with lies within `[MIN_SPEED, MAX_SPEED]`.
pub proof fn lemma_speed_stays_in_bounds(v: Vehicle, s: Seq<Vehicle>)
    requires
        vehicle_wf(v),
        pos_bounded(v),
    ensures
        MIN_SPEED <= spec_step(v, s).speed <= MAX_SPEED,
{
    lemma_step_preserves_wf(v, s);
}

/// The edges of the motion state machine, as observed between ticks:
/// Approaching can stall into Waiting or enter the box as Crossing,
/// Waiting resumes to Approaching (and, when the resumed move already
/// reaches the box, takes the further edge into Crossing within the
/// same tick), Crossing can only leave as Exiting, and Exiting is
/// terminal.  In particular a vehicle is never seen going Approaching
/// to Exiting or Crossing to Waiting directly.
pub open spec fn spec_transition_allowed(a: VehicleState, b: VehicleState) -> bool {
    match (a, b) {
        (VehicleState::Approaching, VehicleState::Approaching) => true,
        (VehicleState::Approaching, VehicleState::Waiting) => true,
        (VehicleState::Approaching, VehicleState::Crossing) => true,
        (VehicleState::Waiting, VehicleState::Waiting) => true,
        (VehicleState::Waiting, VehicleState::Approaching) => true,
        (VehicleState::Waiting, VehicleState::Crossing) => true,
        (VehicleState::Crossing, VehicleState::Crossing) => true,
        (VehicleState::Crossing, VehicleState::Exiting) => true,
        (VehicleState::Exiting, VehicleState::Exiting) => true,
        _ => false,
    }
}

/// Law: a tick only moves a well-formed vehicle along the edges of the
/// state machine.
pub proof fn lemma_transitions_follow_edges(v: Vehicle, s: Seq<Vehicle>)
    requires
        vehicle_wf(v),
        pos_bounded(v),
    ensures
        spec_transition_allowed(v.state, spec_step(v, s).state),
{
    lemma_target_from_bounds(v, s);
}

/// Law (mutual exclusion at entry, first half): while some conflicting
/// route occupies the intersection box, a tick never takes a
/// well-formed vehicle from outside the box into it.
pub proof fn lemma_no_entry_while_conflict_occupied(v: Vehicle, s: Seq<Vehicle>)
    requires
        vehicle_wf(v),
        pos_bounded(v),
        !spec_in_intersection(v.x as int, v.y as int),
        spec_conflict_occupant(v, s),
    ensures
        !spec_in_intersection(spec_step(v, s).x as int, spec_step(v, s).y as int),
{
    lemma_target_from_bounds(v, s);
}

/// A vehicle that enters the box this tick was an entry candidate
/// before it: laterally over the box and within one maximum speed of
/// its stop line.
pub proof fn lemma_entry_needs_candidacy(v: Vehicle, s: Seq<Vehicle>)
    requires
        vehicle_wf(v),
        pos_bounded(v),
        !spec_in_intersection(v.x as int, v.y as int),
        spec_in_intersection(spec_step(v, s).x as int, spec_step(v, s).y as int),
    ensures
        spec_entry_candidate(v),
{
    lemma_target_from_bounds(v, s);
}

/// Law (mutual exclusion at entry, second half): a vehicle yields to a
/// prioritised conflicting vehicle that could reach the box in the same
/// tick, so it does not enter alongside it.  Together with the first
/// half this rules out two conflicting routes entering the box in the
/// same tick: the one with the higher id is blocked at its stop line.
pub proof fn lemma_no_entry_beside_prior_contender(v: Vehicle, s: Seq<Vehicle>, i: int)
    requires
        vehicle_wf(v),
        pos_bounded(v),
        !spec_in_intersection(v.x as int, v.y as int),
        0 <= i < s.len(),
        s[i].id < v.id,
        crate::types::spec_routes_conflict(v.lane, s[i].lane),
        spec_entry_candidate(s[i]),
    ensures
        !spec_in_intersection(spec_step(v, s).x as int, spec_step(v, s).y as int),
{
    lemma_target_from_bounds(v, s);
    assert(spec_is_conflicting_contender(v, s[i]));
}

/// Law (single vehicle, per-tick kernel): a vehicle alone in the world
/// is never made to wait.
pub proof fn lemma_lone_vehicle_never_waits(v: Vehicle, s: Seq<Vehicle>)
    requires
        vehicle_wf(v),
        pos_bounded(v),
        forall|i: int| 0 <= i < s.len() ==> (#[trigger] s[i]).id == v.id,
    ensures
        !spec_blocked(v, s),
        spec_step(v, s).state != VehicleState::Waiting,
{
    lemma_target_from_bounds(v, s);
    crate::collision::lemma_min_ahead_dist2_props(v, s, s.len() as int);
    match spec_min_ahead_dist2(v, s) {
        Some(m) => {
            let i = choose|i: int|
                0 <= i < s.len() && crate::collision::spec_qualifies_ahead(v, #[trigger] s[i])
                    && crate::collision::spec_vehicle_dist2(v, s[i]) == m;
            assert(false);
        },
        None => {},
    }
}

/// Law (waiting at the line, per-tick kernel): a vehicle on its
/// approach, inside the stop-line zone while a conflicting route
/// occupies the box, ends the tick Waiting and has not moved.
pub proof fn lemma_must_wait_for_occupied_intersection(v: Vehicle, s: Seq<Vehicle>)
    requires
        vehicle_wf(v),
        pos_bounded(v),
        v.state == VehicleState::Approaching || v.state == VehicleState::Waiting,
        spec_in_stop_zone(v),
        spec_conflict_occupant(v, s),
    ensures
        spec_step(v, s).state == VehicleState::Waiting,
        spec_step(v, s).x == v.x,
        spec_step(v, s).y == v.y,
{
    lemma_target_from_bounds(v, s);
}

} // verus!

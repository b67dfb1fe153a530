//! Proximity detection and the intersection access policy.
//!
//! All functions here are pure queries over a snapshot of the population;
//! they are the inputs to the per-tick vehicle update.

use vstd::prelude::*;

use crate::config::{CHECK_MARGIN, SAFE_DISTANCE};
use crate::geometry::{dist2, in_intersection, spec_dist2, spec_in_intersection, COORD_LIMIT};
use crate::types::{routes_conflict, spec_routes_conflict, Direction};
use crate::vehicle::Vehicle;

verus! {

/// Per-vehicle collision-avoidance record: the vehicle's last known
/// position and its following-distance parameter.
#[derive(Copy, Clone, Eq, PartialEq, Hash, Debug, Structural)]
pub struct Collision {
    pub vehicle_id: usize,
    pub x: i64,
    pub y: i64,
    pub safe_distance: i64,
}

impl Collision {
    /// A fresh record at the given position with the standard following
    /// distance.
    pub fn new(vehicle_id: usize, x: i64, y: i64) -> (r: Self)
        ensures
            r.vehicle_id == vehicle_id,
            r.x == x,
            r.y == y,
            r.safe_distance == SAFE_DISTANCE,
    {
        Collision { vehicle_id, x, y, safe_distance: SAFE_DISTANCE }
    }

    /// Whether a vehicle currently occupies the intersection box.
    pub fn is_vehicle_in_intersection(vehicle: &Vehicle) -> (r: bool)
        ensures
            r == spec_in_intersection(vehicle.x as int, vehicle.y as int),
    {
        in_intersection(vehicle.x, vehicle.y)
    }

    /// Whether `other` sits in `vehicle`'s travel corridor no farther than
    /// `check_distance` away; exactly `spec_in_path`.
    pub fn is_vehicle_in_path(vehicle: &Vehicle, other: &Vehicle, check_distance: i64) -> (r: bool)
        requires
            pos_bounded(*vehicle),
            pos_bounded(*other),
            0 <= check_distance <= 200_000,
        ensures
            r == spec_in_path(*vehicle, *other, check_distance as int),
    {
        let d2 = dist2(vehicle.x, vehicle.y, other.x, other.y);
        proof {
            assert(0 <= check_distance * check_distance <= 40_000_000_000) by (nonlinear_arith)
                requires
                    0 <= check_distance <= 200_000,
            ;
        }
        if d2 > check_distance * check_distance {
            return false;
        }
        ahead_in_corridor(vehicle, other)
    }

    /// The qualifying vehicle ahead of `vehicle` nearest by Euclidean
    /// distance, or `None` when the corridor is clear.
    pub fn check_vehicle_ahead<'a>(vehicle: &Vehicle, vehicles: &'a [Vehicle]) -> (r: Option<
        &'a Vehicle,
    >)
        requires
            pos_bounded(*vehicle),
            all_pos_bounded(vehicles@),
        ensures
            match r {
                None => spec_min_ahead_dist2(*vehicle, vehicles@) is None,
                Some(o) => {
                    &&& exists|i: int|
                        0 <= i < vehicles@.len() && vehicles@[i] == *o
                    &&& spec_qualifies_ahead(*vehicle, *o)
                    &&& spec_min_ahead_dist2(*vehicle, vehicles@) == Some(
                        spec_vehicle_dist2(*vehicle, *o),
                    )
                },
            },
    {
        let mut best: Option<&'a Vehicle> = None;
        let mut best_d2: i64 = 0;
        let mut i: usize = 0;
        while i < vehicles.len()
            invariant
                0 <= i <= vehicles@.len(),
                pos_bounded(*vehicle),
                all_pos_bounded(vehicles@),
                match best {
                    None => spec_min_ahead_dist2_upto(*vehicle, vehicles@, i as int) is None,
                    Some(o) => {
                        &&& exists|k: int| 0 <= k < i && vehicles@[k] == *o
                        &&& spec_qualifies_ahead(*vehicle, *o)
                        &&& best_d2 == spec_vehicle_dist2(*vehicle, *o)
                        &&& spec_min_ahead_dist2_upto(*vehicle, vehicles@, i as int) == Some(
                            best_d2 as int,
                        )
                    },
                },
            decreases vehicles@.len() - i,
        {
            let other = &vehicles[i];
            if other.id != vehicle.id && Collision::is_vehicle_in_path(
                vehicle,
                other,
                SAFE_DISTANCE + CHECK_MARGIN,
            ) {
                let d2 = dist2(vehicle.x, vehicle.y, other.x, other.y);
                match best {
                    None => {
                        best = Some(other);
                        best_d2 = d2;
                    },
                    Some(_) => {
                        if d2 < best_d2 {
                            best = Some(other);
                            best_d2 = d2;
                        }
                    },
                }
            }
            i = i + 1;
        }
        best
    }

    /// How many other vehicles occupy the intersection box on a route
    /// that conflicts with `vehicle`'s.
    pub fn count_conflicting_vehicles_in_intersection(
        vehicle: &Vehicle,
        vehicles: &[Vehicle],
    ) -> (r: usize)
        ensures
            r == spec_count_conflicting_upto(*vehicle, vehicles@, vehicles@.len() as int),
    {
        let mut count: usize = 0;
        let mut i: usize = 0;
        while i < vehicles.len()
            invariant
                0 <= i <= vehicles@.len(),
                count == spec_count_conflicting_upto(*vehicle, vehicles@, i as int),
                count <= i,
            decreases vehicles@.len() - i,
        {
            let v = &vehicles[i];
            if v.id != vehicle.id && Collision::is_vehicle_in_intersection(v) && routes_conflict(
                vehicle.lane,
                v.lane,
            ) {
                count = count + 1;
            }
            i = i + 1;
        }
        count
    }

    /// Strict mutual exclusion: a vehicle must wait while any conflicting
    /// route occupies the box.
    pub fn should_wait_for_intersection(vehicle: &Vehicle, vehicles: &[Vehicle]) -> (r: bool)
        ensures
            r == spec_conflict_occupant(*vehicle, vehicles@),
    {
        let conflicting_in_intersection = Collision::count_conflicting_vehicles_in_intersection(
            vehicle,
            vehicles,
        );
        proof {
            lemma_count_conflicting_iff_exists(*vehicle, vehicles@, vehicles@.len() as int);
        }
        conflicting_in_intersection >= 1
    }
}

/// Exec mirror of `spec_ahead_in_corridor`.
pub fn ahead_in_corridor(v: &Vehicle, o: &Vehicle) -> (r: bool)
    requires
        pos_bounded(*v),
        pos_bounded(*o),
    ensures
        r == spec_ahead_in_corridor(*v, *o),
{
    let lat = crate::config::LATERAL_TOLERANCE;
    match v.direction {
        Direction::North => o.y < v.y && -lat < o.x - v.x && o.x - v.x < lat,
        Direction::South => o.y > v.y && -lat < o.x - v.x && o.x - v.x < lat,
        Direction::East => o.x > v.x && -lat < o.y - v.y && o.y - v.y < lat,
        Direction::West => o.x < v.x && -lat < o.y - v.y && o.y - v.y < lat,
    }
}

/// The distance to the nearest qualifying vehicle ahead, squared, as the
/// speed-adjustment policy consumes it.
pub fn min_ahead_dist2(vehicle: &Vehicle, vehicles: &[Vehicle]) -> (r: Option<i64>)
    requires
        pos_bounded(*vehicle),
        all_pos_bounded(vehicles@),
    ensures
        opt_dist(r) == spec_min_ahead_dist2(*vehicle, vehicles@),
        r matches Some(d) ==> 0 <= d <= 80_000_000_000,
{
    match Collision::check_vehicle_ahead(vehicle, vehicles) {
        None => None,
        Some(o) => {
            proof {
                let i = choose|i: int| 0 <= i < vehicles@.len() && vehicles@[i] == *o;
                assert(pos_bounded(vehicles@[i]));
            }
            Some(dist2(vehicle.x, vehicle.y, o.x, o.y))
        },
    }
}

/// Two vehicles count as a near miss when at least one of them is
/// inside the intersection box, they lie within the first one's safe
/// following distance of each other, and either sits in the other's
/// travel corridor.
pub open spec fn spec_near_miss_pair(a: Vehicle, b: Vehicle) -> bool {
    &&& spec_in_intersection(a.x as int, a.y as int) || spec_in_intersection(
        b.x as int,
        b.y as int,
    )
    &&& spec_vehicle_dist2(a, b) <= a.collision.safe_distance * a.collision.safe_distance
    &&& spec_ahead_in_corridor(a, b) || spec_ahead_in_corridor(b, a)
}

/// Exec mirror of `spec_near_miss_pair`.
pub fn near_miss_pair(a: &Vehicle, b: &Vehicle) -> (r: bool)
    requires
        pos_bounded(*a),
        pos_bounded(*b),
        0 <= a.collision.safe_distance <= 200_000,
    ensures
        r == spec_near_miss_pair(*a, *b),
{
    if !in_intersection(a.x, a.y) && !in_intersection(b.x, b.y) {
        return false;
    }
    let d2 = dist2(a.x, a.y, b.x, b.y);
    let sd = a.collision.safe_distance;
    proof {
        assert(0 <= sd * sd <= 40_000_000_000) by (nonlinear_arith)
            requires
                0 <= sd <= 200_000,
        ;
    }
    if d2 > sd * sd {
        return false;
    }
    ahead_in_corridor(a, b) || ahead_in_corridor(b, a)
}

/// The `Option<i64>` of the exec detector, read as a spec value.
pub open spec fn opt_dist(m: Option<i64>) -> Option<int> {
    match m {
        None => None,
        Some(d) => Some(d as int),
    }
}

/// Positions the exec helpers accept; far wider than the world plane.
pub open spec fn pos_bounded(v: Vehicle) -> bool {
    &&& -COORD_LIMIT <= v.x <= COORD_LIMIT
    &&& -COORD_LIMIT <= v.y <= COORD_LIMIT
}

/// Every vehicle of the snapshot is in range of the exec helpers.
pub open spec fn all_pos_bounded(s: Seq<Vehicle>) -> bool {
    forall|i: int| 0 <= i < s.len() ==> pos_bounded(#[trigger] s[i])
}

/// Squared Euclidean distance between two vehicles.
pub open spec fn spec_vehicle_dist2(a: Vehicle, b: Vehicle) -> int {
    spec_dist2(a.x as int, a.y as int, b.x as int, b.y as int)
}

/// Whether `o` lies ahead of `v` along `v`'s heading axis, within the
/// lateral tolerance of `v`'s travel corridor.
pub open spec fn spec_ahead_in_corridor(v: Vehicle, o: Vehicle) -> bool {
    let lat = crate::config::LATERAL_TOLERANCE;
    match v.direction {
        Direction::North => o.y < v.y && -lat < o.x - v.x < lat,
        Direction::South => o.y > v.y && -lat < o.x - v.x < lat,
        Direction::East => o.x > v.x && -lat < o.y - v.y < lat,
        Direction::West => o.x < v.x && -lat < o.y - v.y < lat,
    }
}

/// In `v`'s corridor and no farther than `check` away.
pub open spec fn spec_in_path(v: Vehicle, o: Vehicle, check: int) -> bool {
    &&& spec_vehicle_dist2(v, o) <= check * check
    &&& spec_ahead_in_corridor(v, o)
}

/// A distinct vehicle inside the detector's check radius, ahead in the
/// corridor.
pub open spec fn spec_qualifies_ahead(v: Vehicle, o: Vehicle) -> bool {
    &&& o.id != v.id
    &&& spec_in_path(v, o, (SAFE_DISTANCE + CHECK_MARGIN) as int)
}

/// Least squared distance to a qualifying vehicle among the first `n`.
pub open spec fn spec_min_ahead_dist2_upto(v: Vehicle, s: Seq<Vehicle>, n: int) -> Option<int>
    decreases n,
{
    if n <= 0 || n > s.len() {
        None
    } else {
        let prev = spec_min_ahead_dist2_upto(v, s, n - 1);
        let o = s[n - 1];
        if spec_qualifies_ahead(v, o) {
            let d = spec_vehicle_dist2(v, o);
            match prev {
                None => Some(d),
                Some(m) => if d < m {
                    Some(d)
                } else {
                    Some(m)
                },
            }
        } else {
            prev
        }
    }
}

/// Least squared distance from `v` to any qualifying vehicle ahead.
pub open spec fn spec_min_ahead_dist2(v: Vehicle, s: Seq<Vehicle>) -> Option<int> {
    spec_min_ahead_dist2_upto(v, s, s.len() as int)
}

/// The minimum over a prefix is a lower bound on every qualifying entry
/// of that prefix, and is attained by one of them.
pub proof fn lemma_min_ahead_dist2_props(v: Vehicle, s: Seq<Vehicle>, n: int)
    requires
        0 <= n <= s.len(),
    ensures
        spec_min_ahead_dist2_upto(v, s, n) is None ==> forall|i: int|
            0 <= i < n ==> !spec_qualifies_ahead(v, #[trigger] s[i]),
        spec_min_ahead_dist2_upto(v, s, n) matches Some(m) ==> {
            &&& exists|i: int|
                0 <= i < n && spec_qualifies_ahead(v, #[trigger] s[i]) && spec_vehicle_dist2(
                    v,
                    s[i],
                ) == m
            &&& forall|i: int|
                0 <= i < n && spec_qualifies_ahead(v, #[trigger] s[i]) ==> m <= spec_vehicle_dist2(
                    v,
                    s[i],
                )
        },
    decreases n,
{
    if n > 0 {
        lemma_min_ahead_dist2_props(v, s, n - 1);
    }
}

/// Conflicting occupants of the box among the first `n` vehicles,
/// excluding `v` itself.
pub open spec fn spec_count_conflicting_upto(v: Vehicle, s: Seq<Vehicle>, n: int) -> int
    decreases n,
{
    if n <= 0 || n > s.len() {
        0
    } else {
        spec_count_conflicting_upto(v, s, n - 1) + if spec_is_conflicting_occupant(v, s[n - 1]) {
            1int
        } else {
            0int
        }
    }
}

/// A distinct vehicle inside the box whose route conflicts with `v`'s.
pub open spec fn spec_is_conflicting_occupant(v: Vehicle, o: Vehicle) -> bool {
    &&& o.id != v.id
    &&& spec_in_intersection(o.x as int, o.y as int)
    &&& spec_routes_conflict(v.lane, o.lane)
}

/// Some conflicting route currently occupies the intersection box.
pub open spec fn spec_conflict_occupant(v: Vehicle, s: Seq<Vehicle>) -> bool {
    exists|i: int| 0 <= i < s.len() && spec_is_conflicting_occupant(v, #[trigger] s[i])
}

/// Whether a vehicle stands where it could enter the intersection box
/// within one tick: laterally over the box and less than one maximum
/// speed short of its stop line.
pub open spec fn spec_entry_candidate(v: Vehicle) -> bool {
    &&& match v.direction {
        Direction::North | Direction::South => crate::config::BOX_MIN <= v.x
            <= crate::config::BOX_MAX,
        Direction::East | Direction::West => crate::config::BOX_MIN <= v.y
            <= crate::config::BOX_MAX,
    }
    &&& 0 < crate::geometry::spec_dist_to_stop_line(v.direction, v.x as int, v.y as int)
        <= crate::config::MAX_SPEED
}

/// Exec mirror of `spec_entry_candidate`.
pub fn entry_candidate(v: &Vehicle) -> (r: bool)
    requires
        pos_bounded(*v),
    ensures
        r == spec_entry_candidate(*v),
{
    let lateral_over_box = match v.direction {
        Direction::North | Direction::South => crate::config::BOX_MIN <= v.x && v.x
            <= crate::config::BOX_MAX,
        Direction::East | Direction::West => crate::config::BOX_MIN <= v.y && v.y
            <= crate::config::BOX_MAX,
    };
    let d = crate::geometry::dist_to_stop_line(v.direction, v.x, v.y);
    lateral_over_box && 0 < d && d <= crate::config::MAX_SPEED
}

/// A distinct vehicle on a conflicting route that could also enter the
/// box this very tick and holds priority by its lower id.  The priority
/// order breaks the tie deterministically when two conflicting vehicles
/// reach the box in the same tick: the one with the higher id yields.
pub open spec fn spec_is_conflicting_contender(v: Vehicle, o: Vehicle) -> bool {
    &&& o.id < v.id
    &&& spec_routes_conflict(v.lane, o.lane)
    &&& spec_entry_candidate(o)
}

/// Some prioritised conflicting vehicle is about to enter the box.
pub open spec fn spec_conflict_contender(v: Vehicle, s: Seq<Vehicle>) -> bool {
    exists|i: int| 0 <= i < s.len() && spec_is_conflicting_contender(v, #[trigger] s[i])
}

/// Whether the snapshot holds a prioritised conflicting vehicle about
/// to enter the box, which a vehicle at its stop line must yield to.
pub fn has_conflicting_contender(vehicle: &Vehicle, vehicles: &[Vehicle]) -> (r: bool)
    requires
        pos_bounded(*vehicle),
        all_pos_bounded(vehicles@),
    ensures
        r == spec_conflict_contender(*vehicle, vehicles@),
{
    let mut i: usize = 0;
    while i < vehicles.len()
        invariant
            0 <= i <= vehicles@.len(),
            pos_bounded(*vehicle),
            all_pos_bounded(vehicles@),
            forall|k: int|
                0 <= k < i ==> !spec_is_conflicting_contender(*vehicle, #[trigger] vehicles@[k]),
        decreases vehicles@.len() - i,
    {
        let o = &vehicles[i];
        if o.id < vehicle.id && routes_conflict(vehicle.lane, o.lane) && entry_candidate(o) {
            return true;
        }
        i = i + 1;
    }
    false
}

/// The conflicting-occupant count over a prefix is positive exactly when
/// the prefix holds a conflicting occupant, and never negative.
pub proof fn lemma_count_conflicting_iff_exists(v: Vehicle, s: Seq<Vehicle>, n: int)
    requires
        0 <= n <= s.len(),
    ensures
        0 <= spec_count_conflicting_upto(v, s, n),
        spec_count_conflicting_upto(v, s, n) >= 1 <==> exists|i: int|
            0 <= i < n && spec_is_conflicting_occupant(v, #[trigger] s[i]),
    decreases n,
{
    if n > 0 {
        lemma_count_conflicting_iff_exists(v, s, n - 1);
        if spec_is_conflicting_occupant(v, s[n - 1]) {
            assert(0 <= n - 1 < n && spec_is_conflicting_occupant(v, s[n - 1]));
        }
    }
}

} // verus!

//! Spawn commands and the spawn step of the orchestrator.
//!
//! The surrounding system sets one boolean trigger per approach, plus a
//! random trigger that is resolved to one approach before processing.
//! Each trigger asks for one vehicle on a route drawn uniformly from the
//! three legal routes of that approach; the request is dropped when the
//! entry point is not safe this tick.

use vstd::prelude::*;

use crate::collision::{all_pos_bounded, pos_bounded};
use crate::config::{
    SPAWN_AHEAD_FACTOR, SPAWN_LATERAL, SPAWN_SAFE_DISTANCE, SPAWN_SPEED_CHOICES, SPAWN_SPEED_MIN,
};
use crate::geometry::{dist2, spec_dist2, spec_in_world};
use crate::random::random_below;
use crate::simulation::Simulation;
use crate::types::{Direction, Lane, VehicleState};
use crate::vehicle::{spec_fresh_vehicle, vehicle_wf, Vehicle};

verus! {

/// The spawn triggers of one tick.
pub struct InputHandler {
    pub quit: bool,
    pub spawn_north: bool,
    pub spawn_south: bool,
    pub spawn_east: bool,
    pub spawn_west: bool,
    pub spawn_random: bool,
}

/// The entry point of a lane: where on the rim of the world plane a
/// vehicle on that lane is created.  Each approach has one entry lane
/// offset per destination.
pub open spec fn spec_entry_point(lane: Lane) -> (int, int) {
    match lane.from {
        Direction::South => {
            let x: int = match lane.to {
                Direction::East => 4725,
                Direction::West => 4025,
                _ => 4375,
            };
            (x, 8000)
        },
        Direction::North => {
            let x: int = match lane.to {
                Direction::East => 3650,
                Direction::West => 2950,
                _ => 3300,
            };
            (x, 0)
        },
        Direction::East => {
            let y: int = match lane.to {
                Direction::North => 2950,
                Direction::South => 3650,
                _ => 3300,
            };
            (8000, y)
        },
        Direction::West => {
            let y: int = match lane.to {
                Direction::North => 4025,
                Direction::South => 4725,
                _ => 4375,
            };
            (0, y)
        },
    }
}

/// Exec mirror of `spec_entry_point`.
pub fn entry_point(lane: Lane) -> (r: (i64, i64))
    ensures
        (r.0 as int, r.1 as int) == spec_entry_point(lane),
{
    match lane.from {
        Direction::South => {
            let x: i64 = match lane.to {
                Direction::East => 4725,
                Direction::West => 4025,
                _ => 4375,
            };
            (x, 8000)
        },
        Direction::North => {
            let x: i64 = match lane.to {
                Direction::East => 3650,
                Direction::West => 2950,
                _ => 3300,
            };
            (x, 0)
        },
        Direction::East => {
            let y: i64 = match lane.to {
                Direction::North => 2950,
                Direction::South => 3650,
                _ => 3300,
            };
            (8000, y)
        },
        Direction::West => {
            let y: i64 = match lane.to {
                Direction::North => 4025,
                Direction::South => 4725,
                _ => 4375,
            };
            (0, y)
        },
    }
}

/// Whether `v` sits in the corridor a vehicle spawned at `(x, y)` on
/// `lane` would travel first, within the widened spawn check radius'
/// lateral band.
pub open spec fn spec_spawn_ahead(x: int, y: int, lane: Lane, v: Vehicle) -> bool {
    let lat = SPAWN_LATERAL as int;
    match lane.from {
        Direction::South => v.y < y && -lat < v.x - x < lat,
        Direction::North => v.y > y && -lat < v.x - x < lat,
        Direction::East => v.x < x && -lat < v.y - y < lat,
        Direction::West => v.x > x && -lat < v.y - y < lat,
    }
}

/// Whether `v` blocks a spawn at `(x, y)` on `lane`: only same-route
/// vehicles do, either closer than the spawn safe distance or inside the
/// extended corridor ahead of the entry point.
pub open spec fn spec_spawn_blocker(x: int, y: int, lane: Lane, v: Vehicle) -> bool {
    let d2 = spec_dist2(v.x as int, v.y as int, x, y);
    let near = SPAWN_SAFE_DISTANCE as int;
    let reach = SPAWN_AHEAD_FACTOR * SPAWN_SAFE_DISTANCE;
    &&& v.lane == lane
    &&& (d2 < near * near || (spec_spawn_ahead(x, y, lane, v) && d2 < reach * reach))
}

/// A spawn at `(x, y)` on `lane` is safe against a population when no
/// vehicle of it blocks the spawn.
pub open spec fn spec_spawn_safe(x: int, y: int, lane: Lane, s: Seq<Vehicle>) -> bool {
    forall|i: int| 0 <= i < s.len() ==> !spec_spawn_blocker(x, y, lane, #[trigger] s[i])
}

/// Whether creating a vehicle at `(spawn_x, spawn_y)` on `lane` keeps
/// the required clearance from every existing same-route vehicle.
pub fn is_lane_spawn_safe(spawn_x: i64, spawn_y: i64, lane: Lane, vehicles: &[Vehicle]) -> (r:
    bool)
    requires
        -1000 <= spawn_x <= 10_000,
        -1000 <= spawn_y <= 10_000,
        all_pos_bounded(vehicles@),
    ensures
        r == spec_spawn_safe(spawn_x as int, spawn_y as int, lane, vehicles@),
{
    let mut i: usize = 0;
    while i < vehicles.len()
        invariant
            0 <= i <= vehicles@.len(),
            -1000 <= spawn_x <= 10_000,
            -1000 <= spawn_y <= 10_000,
            all_pos_bounded(vehicles@),
            forall|k: int|
                0 <= k < i ==> !spec_spawn_blocker(
                    spawn_x as int,
                    spawn_y as int,
                    lane,
                    #[trigger] vehicles@[k],
                ),
        decreases vehicles@.len() - i,
    {
        let v = &vehicles[i];
        if v.lane == lane {
            let d2 = dist2(v.x, v.y, spawn_x, spawn_y);
            if d2 < SPAWN_SAFE_DISTANCE * SPAWN_SAFE_DISTANCE {
                return false;
            }
            let ahead = match lane.from {
                Direction::South => v.y < spawn_y && -SPAWN_LATERAL < v.x - spawn_x && v.x - spawn_x
                    < SPAWN_LATERAL,
                Direction::North => v.y > spawn_y && -SPAWN_LATERAL < v.x - spawn_x && v.x - spawn_x
                    < SPAWN_LATERAL,
                Direction::East => v.x < spawn_x && -SPAWN_LATERAL < v.y - spawn_y && v.y - spawn_y
                    < SPAWN_LATERAL,
                Direction::West => v.x > spawn_x && -SPAWN_LATERAL < v.y - spawn_y && v.y - spawn_y
                    < SPAWN_LATERAL,
            };
            proof {
                assert(SPAWN_AHEAD_FACTOR * SPAWN_SAFE_DISTANCE == 1200) by (nonlinear_arith);
                assert(1200i64 * 1200i64 == 1_440_000) by (nonlinear_arith);
            }
            let reach: i64 = SPAWN_AHEAD_FACTOR * SPAWN_SAFE_DISTANCE;
            if ahead && d2 < reach * reach {
                return false;
            }
        }
        i = i + 1;
    }
    true
}

/// Law: a population holding a vehicle of the same route exactly at the
/// entry point makes a spawn there unsafe.
pub proof fn lemma_spawn_unsafe_at_occupied_entry(x: int, y: int, lane: Lane, s: Seq<Vehicle>, i: int)
    requires
        0 <= i < s.len(),
        s[i].lane == lane,
        s[i].x == x,
        s[i].y == y,
    ensures
        !spec_spawn_safe(x, y, lane, s),
{
    assert(spec_dist2(s[i].x as int, s[i].y as int, x, y) == 0);
    assert(spec_spawn_blocker(x, y, lane, s[i]));
}

/// Every id of the population lies below `n`.
pub open spec fn ids_below(s: Seq<Vehicle>, n: int) -> bool {
    forall|i: int| 0 <= i < s.len() ==> (#[trigger] s[i]).id < n
}

/// No two vehicles of the population share an id.
pub open spec fn ids_unique(s: Seq<Vehicle>) -> bool {
    forall|i: int, j: int|
        0 <= i < s.len() && 0 <= j < s.len() && i != j ==> (#[trigger] s[i]).id != (
        #[trigger] s[j]).id
}

/// What holds of a vehicle the spawn step appended, judged against the
/// population it was checked against.
pub open spec fn spawned_ok(nv: Vehicle, prev: Seq<Vehicle>) -> bool {
    &&& vehicle_wf(nv)
    &&& nv.state == VehicleState::Approaching
    &&& nv == spec_fresh_vehicle(nv.id, nv.x, nv.y, nv.lane, nv.color, nv.speed)
    &&& (nv.x as int, nv.y as int) == spec_entry_point(nv.lane)
    &&& SPAWN_SPEED_MIN <= nv.speed < SPAWN_SPEED_MIN + SPAWN_SPEED_CHOICES
    &&& spec_spawn_safe(nv.x as int, nv.y as int, nv.lane, prev)
    &&& spec_in_world(nv.x as int, nv.y as int)
    &&& pos_bounded(nv)
}

/// The destination an approach's uniform three-way draw maps `pick` to.
pub open spec fn spec_route_choice(from: Direction, pick: int) -> Direction {
    match from {
        Direction::South => if pick == 0 {
            Direction::East
        } else if pick == 1 {
            Direction::West
        } else {
            Direction::North
        },
        Direction::North => if pick == 0 {
            Direction::East
        } else if pick == 1 {
            Direction::West
        } else {
            Direction::South
        },
        Direction::East => if pick == 0 {
            Direction::North
        } else if pick == 1 {
            Direction::South
        } else {
            Direction::West
        },
        Direction::West => if pick == 0 {
            Direction::North
        } else if pick == 1 {
            Direction::South
        } else {
            Direction::East
        },
    }
}

/// Exec mirror of `spec_route_choice`; every choice leaves the approach.
pub fn route_choice(from: Direction, pick: u32) -> (to: Direction)
    ensures
        to == spec_route_choice(from, pick as int),
        to != from,
{
    match from {
        Direction::South => if pick == 0 {
            Direction::East
        } else if pick == 1 {
            Direction::West
        } else {
            Direction::North
        },
        Direction::North => if pick == 0 {
            Direction::East
        } else if pick == 1 {
            Direction::West
        } else {
            Direction::South
        },
        Direction::East => if pick == 0 {
            Direction::North
        } else if pick == 1 {
            Direction::South
        } else {
            Direction::West
        },
        Direction::West => if pick == 0 {
            Direction::North
        } else if pick == 1 {
            Direction::South
        } else {
            Direction::East
        },
    }
}

/// Processes one approach's spawn request: draws a route, checks the
/// entry point, and appends the new vehicle when it is safe.
fn spawn_from(vehicles: &mut Vec<Vehicle>, simulation: &mut Simulation, from: Direction)
    requires
        old(simulation).next_vehicle_id < usize::MAX,
        all_pos_bounded(old(vehicles)@),
        ids_below(old(vehicles)@, old(simulation).next_vehicle_id as int),
        ids_unique(old(vehicles)@),
    ensures
        spawn_call_summary(
            old(vehicles)@,
            final(vehicles)@,
            old(simulation).next_vehicle_id as int,
            final(simulation).next_vehicle_id as int,
            from,
        ),
        all_pos_bounded(final(vehicles)@),
        ids_below(final(vehicles)@, final(simulation).next_vehicle_id as int),
        ids_unique(final(vehicles)@),
{
    let pick = random_below(3);
    let to = route_choice(from, pick);
    let lane = Lane::set(from, to);
    let (x, y) = entry_point(lane);
    if is_lane_spawn_safe(x, y, lane, vehicles.as_slice()) {
        let id = simulation.get_next_vehicle_id();
        let vehicle = Vehicle::new(id, x, y, lane);
        vehicles.push(vehicle);
    } else {
        proof {
            assert(!spec_candidate_lane_safe(from, pick as int, vehicles@));
        }
    }
}

/// Whether the draw `pick` of approach `from` would find its entry
/// point safe against the population `s`.
pub open spec fn spec_candidate_lane_safe(from: Direction, pick: int, s: Seq<Vehicle>) -> bool {
    let lane = Lane { from, to: spec_route_choice(from, pick) };
    spec_spawn_safe(spec_entry_point(lane).0, spec_entry_point(lane).1, lane, s)
}

/// Whatever route the draw picks for approach `from`, its entry point
/// is safe against the population `s`; a spawn request then succeeds.
pub open spec fn all_candidate_lanes_safe(from: Direction, s: Seq<Vehicle>) -> bool {
    forall|p: int| 0 <= p < 3 ==> spec_candidate_lane_safe(from, p, s)
}

/// Only same-route vehicles can block a spawn, so appending a vehicle
/// from another approach never makes a safe approach unsafe.
proof fn lemma_candidates_safe_after_push(from: Direction, s: Seq<Vehicle>, w: Vehicle)
    requires
        all_candidate_lanes_safe(from, s),
        w.lane.from != from,
    ensures
        all_candidate_lanes_safe(from, s.push(w)),
{
    assert forall|p: int| 0 <= p < 3 implies spec_candidate_lane_safe(from, p, s.push(w)) by {
        let lane = Lane { from, to: spec_route_choice(from, p) };
        assert(spec_candidate_lane_safe(from, p, s));
        assert forall|i: int| 0 <= i < s.push(w).len() implies !spec_spawn_blocker(
            spec_entry_point(lane).0,
            spec_entry_point(lane).1,
            lane,
            #[trigger] s.push(w)[i],
        ) by {
            if i < s.len() {
                assert(s.push(w)[i] == s[i]);
            } else {
                assert(s.push(w)[i] == w);
            }
        }
    }
}

/// Whether approach `d` was asked to spawn this tick, directly by its
/// own trigger or possibly through the random trigger.
pub open spec fn spec_triggered(inp: InputHandler, d: Direction) -> bool {
    inp.spawn_random || match d {
        Direction::North => inp.spawn_north,
        Direction::South => inp.spawn_south,
        Direction::East => inp.spawn_east,
        Direction::West => inp.spawn_west,
    }
}

/// Whether any spawn trigger of `inp` is set.
pub open spec fn spec_any_trigger(inp: InputHandler) -> bool {
    inp.spawn_north || inp.spawn_south || inp.spawn_east || inp.spawn_west || inp.spawn_random
}

/// One of the vehicles of `all` from index `start` on starts on
/// approach `d`.
pub open spec fn spec_has_origin(all: Seq<Vehicle>, start: int, d: Direction) -> bool {
    exists|k: int| start <= k < all.len() && (#[trigger] all[k]).lane.from == d
}

/// Everything the spawn step guarantees about how it extended `base`
/// to `all`, given the triggers `inp` and the id counter standing at
/// `base_next` before the step and `end_next` after it: at most one
/// vehicle per approach and only for triggered approaches, each
/// vehicle checked safe against the exact population it joined,
/// consecutive fresh ids, the counter advanced by exactly the number
/// appended, nothing without a trigger, and a spawn owed to every
/// directly triggered approach whose three candidate entries are all
/// safe.
pub open spec fn spawn_outcome_ok(
    inp: InputHandler,
    base: Seq<Vehicle>,
    base_next: int,
    all: Seq<Vehicle>,
    end_next: int,
) -> bool {
    let b = base.len() as int;
    &&& base.is_prefix_of(all)
    &&& all.len() <= base.len() + 4
    &&& end_next == base_next + all.len() - base.len()
    &&& forall|k: int| b <= k < all.len() ==> spawned_ok(#[trigger] all[k], all.take(k))
    &&& forall|k: int| b <= k < all.len() ==> (#[trigger] all[k]).id == base_next + k - b
    &&& forall|k: int| b <= k < all.len() ==> spec_triggered(inp, (#[trigger] all[k]).lane.from)
    &&& forall|k1: int, k2: int|
        b <= k1 < k2 < all.len() ==> (#[trigger] all[k1]).lane.from != (
        #[trigger] all[k2]).lane.from
    &&& (!spec_any_trigger(inp) ==> all == base)
    &&& (inp.spawn_south && all_candidate_lanes_safe(Direction::South, base) ==> spec_has_origin(
        all,
        b,
        Direction::South,
    ))
    &&& (inp.spawn_north && all_candidate_lanes_safe(Direction::North, base) ==> spec_has_origin(
        all,
        b,
        Direction::North,
    ))
    &&& (inp.spawn_east && all_candidate_lanes_safe(Direction::East, base) ==> spec_has_origin(
        all,
        b,
        Direction::East,
    ))
    &&& (inp.spawn_west && all_candidate_lanes_safe(Direction::West, base) ==> spec_has_origin(
        all,
        b,
        Direction::West,
    ))
}

/// What one approach's spawn request leaves behind: either nothing
/// changed, or exactly one vehicle appended, checked against the
/// population before it, carrying the id the counter stood at; and an
/// append is owed when every candidate entry of the approach is safe.
pub open spec fn spawn_call_summary(
    pre: Seq<Vehicle>,
    post: Seq<Vehicle>,
    npre: int,
    npost: int,
    from: Direction,
) -> bool {
    &&& pre.is_prefix_of(post)
    &&& post.len() <= pre.len() + 1
    &&& (post.len() == pre.len() ==> post == pre && npost == npre)
    &&& (post.len() == pre.len() + 1 ==> {
        let nv = post.last();
        &&& spawned_ok(nv, pre)
        &&& nv.lane.from == from
        &&& nv.id == npre
        &&& npost == npre + 1
    })
    &&& (all_candidate_lanes_safe(from, pre) ==> post.len() == pre.len() + 1)
}

/// Assembles the whole spawn step's guarantee from the four per-call
/// summaries.  `inp` holds the triggers as the caller set them and
/// `res` those after the random trigger was resolved to one approach.
#[verifier::rlimit(100)]
proof fn lemma_spawn_outcome_assembly(
    inp: InputHandler,
    res: InputHandler,
    s0: Seq<Vehicle>,
    s1: Seq<Vehicle>,
    s2: Seq<Vehicle>,
    s3: Seq<Vehicle>,
    sf: Seq<Vehicle>,
    n0: int,
    n1: int,
    n2: int,
    n3: int,
    n4: int,
)
    requires
        res.spawn_south ==> spawn_call_summary(s0, s1, n0, n1, Direction::South),
        !res.spawn_south ==> s1 == s0 && n1 == n0,
        res.spawn_north ==> spawn_call_summary(s1, s2, n1, n2, Direction::North),
        !res.spawn_north ==> s2 == s1 && n2 == n1,
        res.spawn_east ==> spawn_call_summary(s2, s3, n2, n3, Direction::East),
        !res.spawn_east ==> s3 == s2 && n3 == n2,
        res.spawn_west ==> spawn_call_summary(s3, sf, n3, n4, Direction::West),
        !res.spawn_west ==> sf == s3 && n4 == n3,
        res.spawn_south ==> inp.spawn_south || inp.spawn_random,
        res.spawn_north ==> inp.spawn_north || inp.spawn_random,
        res.spawn_east ==> inp.spawn_east || inp.spawn_random,
        res.spawn_west ==> inp.spawn_west || inp.spawn_random,
        inp.spawn_south ==> res.spawn_south,
        inp.spawn_north ==> res.spawn_north,
        inp.spawn_east ==> res.spawn_east,
        inp.spawn_west ==> res.spawn_west,
    ensures
        spawn_outcome_ok(inp, s0, n0, sf, n4),
{
    let b = s0.len() as int;
    assert(s0.is_prefix_of(sf));
    assert(s1.len() > s0.len() ==> sf[b] == s1.last());
    assert(s2.len() > s1.len() ==> sf[s1.len() as int] == s2.last());
    assert(s3.len() > s2.len() ==> sf[s2.len() as int] == s3.last());
    assert(sf.len() > s3.len() ==> sf[s3.len() as int] == sf.last());
    assert forall|k: int|
        b <= k < sf.len() implies spawned_ok(#[trigger] sf[k], sf.take(k)) && sf[k].id == n0 + k - b
        && spec_triggered(inp, sf[k].lane.from) by {
        if k < s1.len() {
            assert(sf[k] == s1.last());
            assert(sf.take(k) =~= s0);
        } else if k < s2.len() {
            assert(sf[k] == s2.last());
            assert(sf.take(k) =~= s1);
        } else if k < s3.len() {
            assert(sf[k] == s3.last());
            assert(sf.take(k) =~= s2);
        } else {
            assert(sf[k] == sf.last());
            assert(sf.take(k) =~= s3);
        }
    }
    if inp.spawn_south && all_candidate_lanes_safe(Direction::South, s0) {
        assert(s1.len() == s0.len() + 1);
        assert(sf[b] == s1.last());
        assert(spec_has_origin(sf, b, Direction::South));
    }
    if inp.spawn_north && all_candidate_lanes_safe(Direction::North, s0) {
        if s1.len() > s0.len() {
            assert(s1 =~= s0.push(s1.last()));
            lemma_candidates_safe_after_push(Direction::North, s0, s1.last());
        }
        assert(all_candidate_lanes_safe(Direction::North, s1));
        assert(s2.len() == s1.len() + 1);
        assert(sf[s1.len() as int] == s2.last());
        assert(spec_has_origin(sf, b, Direction::North));
    }
    if inp.spawn_east && all_candidate_lanes_safe(Direction::East, s0) {
        if s1.len() > s0.len() {
            assert(s1 =~= s0.push(s1.last()));
            lemma_candidates_safe_after_push(Direction::East, s0, s1.last());
        }
        assert(all_candidate_lanes_safe(Direction::East, s1));
        if s2.len() > s1.len() {
            assert(s2 =~= s1.push(s2.last()));
            lemma_candidates_safe_after_push(Direction::East, s1, s2.last());
        }
        assert(all_candidate_lanes_safe(Direction::East, s2));
        assert(s3.len() == s2.len() + 1);
        assert(sf[s2.len() as int] == s3.last());
        assert(spec_has_origin(sf, b, Direction::East));
    }
    if inp.spawn_west && all_candidate_lanes_safe(Direction::West, s0) {
        if s1.len() > s0.len() {
            assert(s1 =~= s0.push(s1.last()));
            lemma_candidates_safe_after_push(Direction::West, s0, s1.last());
        }
        assert(all_candidate_lanes_safe(Direction::West, s1));
        if s2.len() > s1.len() {
            assert(s2 =~= s1.push(s2.last()));
            lemma_candidates_safe_after_push(Direction::West, s1, s2.last());
        }
        assert(all_candidate_lanes_safe(Direction::West, s2));
        if s3.len() > s2.len() {
            assert(s3 =~= s2.push(s3.last()));
            lemma_candidates_safe_after_push(Direction::West, s2, s3.last());
        }
        assert(all_candidate_lanes_safe(Direction::West, s3));
        assert(sf.len() == s3.len() + 1);
        assert(sf[s3.len() as int] == sf.last());
        assert(spec_has_origin(sf, b, Direction::West));
    }
}

impl InputHandler {
    /// A handler with no trigger set.
    pub fn new() -> (r: Self)
        ensures
            !r.quit,
            !r.spawn_north,
            !r.spawn_south,
            !r.spawn_east,
            !r.spawn_west,
            !r.spawn_random,
    {
        InputHandler {
            quit: false,
            spawn_north: false,
            spawn_south: false,
            spawn_east: false,
            spawn_west: false,
            spawn_random: false,
        }
    }

    /// Clears every spawn trigger for the next tick.
    pub fn reset(&mut self)
        ensures
            final(self).quit == old(self).quit,
            !final(self).spawn_north,
            !final(self).spawn_south,
            !final(self).spawn_east,
            !final(self).spawn_west,
            !final(self).spawn_random,
    {
        self.spawn_north = false;
        self.spawn_south = false;
        self.spawn_east = false;
        self.spawn_west = false;
        self.spawn_random = false;
    }

    /// Processes this tick's spawn triggers: resolves the random trigger
    /// to one approach, then spawns on each triggered approach whose
    /// entry is safe, handing out fresh consecutive ids.  The appended
    /// suffix satisfies `spawn_outcome_ok`: at most one vehicle per
    /// triggered approach, each well formed, Approaching at its lane's
    /// entry point and safe against the population it joined, and a
    /// spawn is owed to every directly triggered approach whose three
    /// candidate entries are all safe.
    #[verifier::rlimit(100)]
    pub fn spawn_cars(&mut self, vehicles: &mut Vec<Vehicle>, simulation: &mut Simulation)
        requires
            old(simulation).next_vehicle_id <= usize::MAX - 4,
            all_pos_bounded(old(vehicles)@),
            ids_below(old(vehicles)@, old(simulation).next_vehicle_id as int),
            ids_unique(old(vehicles)@),
        ensures
            old(vehicles)@.is_prefix_of(final(vehicles)@),
            all_pos_bounded(final(vehicles)@),
            ids_below(final(vehicles)@, final(simulation).next_vehicle_id as int),
            ids_unique(final(vehicles)@),
            spawn_outcome_ok(
                *old(self),
                old(vehicles)@,
                old(simulation).next_vehicle_id as int,
                final(vehicles)@,
                final(simulation).next_vehicle_id as int,
            ),
            !spec_any_trigger(*old(self)) ==> final(vehicles)@ == old(vehicles)@
                && *final(simulation) == *old(simulation),
            final(self).quit == old(self).quit,
    {
        if self.spawn_random {
            match random_below(4) {
                0u32 => self.spawn_north = true,
                1u32 => self.spawn_south = true,
                2u32 => self.spawn_east = true,
                _ => self.spawn_west = true,
            }
        }
        let ghost res = *self;
        let ghost s0 = vehicles@;
        let ghost n0 = simulation.next_vehicle_id as int;
        if self.spawn_south {
            spawn_from(vehicles, simulation, Direction::South);
        }
        let ghost s1 = vehicles@;
        let ghost n1 = simulation.next_vehicle_id as int;
        if self.spawn_north {
            spawn_from(vehicles, simulation, Direction::North);
        }
        let ghost s2 = vehicles@;
        let ghost n2 = simulation.next_vehicle_id as int;
        if self.spawn_east {
            spawn_from(vehicles, simulation, Direction::East);
        }
        let ghost s3 = vehicles@;
        let ghost n3 = simulation.next_vehicle_id as int;
        if self.spawn_west {
            spawn_from(vehicles, simulation, Direction::West);
        }
        proof {
            lemma_spawn_outcome_assembly(
                *old(self),
                res,
                s0,
                s1,
                s2,
                s3,
                vehicles@,
                n0,
                n1,
                n2,
                n3,
                simulation.next_vehicle_id as int,
            );
        }
    }
}

} // verus!

//! The per-tick orchestrator: spawn, advance, near-miss detection,
//! retirement, statistics.

use vstd::pervasive::VecAdditionalExecFns;
use vstd::prelude::*;

use crate::collision::{all_pos_bounded, near_miss_pair, pos_bounded, spec_near_miss_pair};
use crate::geometry::{in_world, spec_in_world};
use crate::input::{ids_below, ids_unique, spawned_ok, InputHandler};
use crate::simulation::Simulation;
use crate::statistics::{spec_stats_of, Statistics};
use crate::vehicle::{
    lemma_step_position_delta, lemma_step_preserves_wf, spec_step, vehicle_wf, Vehicle,
};

verus! {

/// Every vehicle of the population is well formed.
pub open spec fn all_wf(s: Seq<Vehicle>) -> bool {
    forall|i: int| 0 <= i < s.len() ==> vehicle_wf(#[trigger] s[i])
}

/// Every vehicle of the population sits on the world plane or within
/// the retirement margin around it.
pub open spec fn all_in_world(s: Seq<Vehicle>) -> bool {
    forall|i: int| 0 <= i < s.len() ==> spec_in_world((#[trigger] s[i]).x as int, s[i].y as int)
}

/// The whole population advanced one tick, every vehicle against the
/// same pre-tick snapshot.
pub open spec fn spec_advanced(s: Seq<Vehicle>) -> Seq<Vehicle> {
    Seq::new(s.len(), |i: int| spec_step(s[i], s))
}

/// Advances every vehicle one tick against an immutable snapshot of the
/// population taken before any of them moved, so the outcome does not
/// depend on the order of the updates.
pub fn advance_vehicles(vehicles: &mut Vec<Vehicle>)
    requires
        all_wf(old(vehicles)@),
        all_pos_bounded(old(vehicles)@),
    ensures
        final(vehicles)@ == spec_advanced(old(vehicles)@),
        all_wf(final(vehicles)@),
{
    let ghost orig = vehicles@;
    let mut snapshot: Vec<Vehicle> = Vec::new();
    let mut i: usize = 0;
    while i < vehicles.len()
        invariant
            0 <= i <= vehicles@.len(),
            vehicles@ == orig,
            snapshot@ == orig.take(i as int),
        decreases vehicles@.len() - i,
    {
        snapshot.push(vehicles[i]);
        i = i + 1;
    }
    proof {
        assert(snapshot@ =~= orig);
    }
    let mut i: usize = 0;
    while i < vehicles.len()
        invariant
            0 <= i <= vehicles@.len(),
            vehicles@.len() == orig.len(),
            snapshot@ == orig,
            all_wf(orig),
            all_pos_bounded(orig),
            forall|k: int| 0 <= k < i ==> #[trigger] vehicles@[k] == spec_step(orig[k], orig),
            forall|k: int| i <= k < orig.len() ==> #[trigger] vehicles@[k] == orig[k],
        decreases vehicles@.len() - i,
    {
        let mut v = vehicles[i];
        v.update(snapshot.as_slice());
        vehicles.set(i, v);
        i = i + 1;
    }
    proof {
        assert(vehicles@ =~= spec_advanced(orig));
        assert forall|k: int| 0 <= k < vehicles@.len() implies vehicle_wf(
            #[trigger] vehicles@[k],
        ) by {
            lemma_step_preserves_wf(orig[k], orig);
        }
    }
}

/// Whether vehicle `i` of the population has a near miss with any
/// other vehicle.
pub open spec fn spec_near_flag_exists(s: Seq<Vehicle>, i: int) -> bool {
    exists|j: int| 0 <= j < s.len() && j != i && spec_near_miss_pair(s[i], #[trigger] s[j])
}

/// Vehicle `i` of the population with its near-miss flag brought up to
/// date; the flag is never cleared again.
pub open spec fn spec_flag_one(s: Seq<Vehicle>, i: int) -> Vehicle {
    let v = s[i];
    Vehicle { had_close_call: v.had_close_call || spec_near_flag_exists(s, i), ..v }
}

/// The population with every near-miss flag brought up to date.
pub open spec fn spec_flagged(s: Seq<Vehicle>) -> Seq<Vehicle> {
    Seq::new(s.len(), |i: int| spec_flag_one(s, i))
}

/// Flags every pair of vehicles observed in a near miss this tick:
/// both within one safe following distance while at least one is in
/// the intersection box.  Flags stick for a vehicle's lifetime.
pub fn flag_near_misses(vehicles: &mut Vec<Vehicle>)
    requires
        all_wf(old(vehicles)@),
        all_pos_bounded(old(vehicles)@),
    ensures
        final(vehicles)@ == spec_flagged(old(vehicles)@),
        all_wf(final(vehicles)@),
{
    let ghost orig = vehicles@;
    let mut snapshot: Vec<Vehicle> = Vec::new();
    let mut i: usize = 0;
    while i < vehicles.len()
        invariant
            0 <= i <= vehicles@.len(),
            vehicles@ == orig,
            snapshot@ == orig.take(i as int),
        decreases vehicles@.len() - i,
    {
        snapshot.push(vehicles[i]);
        i = i + 1;
    }
    proof {
        assert(snapshot@ =~= orig);
    }
    let mut i: usize = 0;
    while i < vehicles.len()
        invariant
            0 <= i <= vehicles@.len(),
            vehicles@.len() == orig.len(),
            snapshot@ == orig,
            all_wf(orig),
            all_pos_bounded(orig),
            forall|k: int| 0 <= k < i ==> #[trigger] vehicles@[k] == spec_flag_one(orig, k),
            forall|k: int| i <= k < orig.len() ==> #[trigger] vehicles@[k] == orig[k],
        decreases vehicles@.len() - i,
    {
        let mut v = snapshot[i];
        let mut found = false;
        let mut j: usize = 0;
        while j < snapshot.len()
            invariant
                0 <= i < orig.len(),
                0 <= j <= orig.len(),
                snapshot@ == orig,
                v == orig[i as int],
                all_wf(orig),
                all_pos_bounded(orig),
                found == exists|k: int|
                    0 <= k < j && k != i && spec_near_miss_pair(orig[i as int], #[trigger] orig[k]),
            decreases orig.len() - j,
        {
            if j != i {
                if near_miss_pair(&v, &snapshot[j]) {
                    found = true;
                }
            }
            j = j + 1;
        }
        if found {
            v.had_close_call = true;
        }
        vehicles.set(i, v);
        i = i + 1;
    }
    proof {
        assert(vehicles@ =~= spec_flagged(orig));
    }
}

/// The vehicles of a population still on (or near) the world plane, in
/// their original order.
pub open spec fn spec_kept(s: Seq<Vehicle>) -> Seq<Vehicle>
    decreases s.len(),
{
    if s.len() == 0 {
        Seq::empty()
    } else {
        let rest = spec_kept(s.drop_last());
        if spec_in_world(s.last().x as int, s.last().y as int) {
            rest.push(s.last())
        } else {
            rest
        }
    }
}

/// The vehicles of a population that moved beyond the world plane and
/// its margin, in their original order.
pub open spec fn spec_retired(s: Seq<Vehicle>) -> Seq<Vehicle>
    decreases s.len(),
{
    if s.len() == 0 {
        Seq::empty()
    } else {
        let rest = spec_retired(s.drop_last());
        if spec_in_world(s.last().x as int, s.last().y as int) {
            rest
        } else {
            rest.push(s.last())
        }
    }
}

/// Moves every vehicle that left the world plane from the live
/// collection to the end of the completed collection, keeping the order
/// of both.
pub fn retire_vehicles(vehicles: &mut Vec<Vehicle>, completed_vehicles: &mut Vec<Vehicle>)
    requires
        ids_unique(old(vehicles)@),
    ensures
        final(vehicles)@ == spec_kept(old(vehicles)@),
        final(completed_vehicles)@ == old(completed_vehicles)@ + spec_retired(old(vehicles)@),
        all_in_world(final(vehicles)@),
        ids_unique(final(vehicles)@),
        forall|k: int|
            0 <= k < final(vehicles)@.len() ==> exists|i: int|
                0 <= i < old(vehicles)@.len() && #[trigger] final(vehicles)@[k] == old(vehicles)@[i],
{
    let ghost orig = vehicles@;
    let ghost comp0 = completed_vehicles@;
    let mut kept: Vec<Vehicle> = Vec::new();
    let mut i: usize = 0;
    while i < vehicles.len()
        invariant
            0 <= i <= orig.len(),
            vehicles@ == orig,
            ids_unique(orig),
            kept@ == spec_kept(orig.take(i as int)),
            completed_vehicles@ == comp0 + spec_retired(orig.take(i as int)),
            all_in_world(kept@),
            ids_unique(kept@),
            forall|k: int|
                0 <= k < kept@.len() ==> exists|i2: int|
                    0 <= i2 < i && #[trigger] kept@[k] == orig[i2],
        decreases orig.len() - i,
    {
        let v = vehicles[i];
        proof {
            assert(orig.take(i as int + 1).drop_last() =~= orig.take(i as int));
            assert(orig.take(i as int + 1).last() == orig[i as int]);
        }
        if in_world(v.x, v.y) {
            proof {
                assert forall|k: int| 0 <= k < kept@.len() implies (#[trigger] kept@[k]).id
                    != v.id by {
                    let i2 = choose|i2: int| 0 <= i2 < i && kept@[k] == orig[i2];
                    assert(orig[i2].id != orig[i as int].id);
                }
            }
            kept.push(v);
        } else {
            completed_vehicles.push(v);
        }
        i = i + 1;
    }
    proof {
        assert(orig.take(orig.len() as int) =~= orig);
    }
    *vehicles = kept;
}

/// The live collection left by one full tick of a post-spawn
/// population: everyone advanced against the same snapshot, near-miss
/// flags brought up to date, departures removed.
pub open spec fn spec_tick_live(s: Seq<Vehicle>) -> Seq<Vehicle> {
    spec_kept(spec_flagged(spec_advanced(s)))
}

/// The vehicles one full tick of a post-spawn population retires, in
/// order.
pub open spec fn spec_tick_retired(s: Seq<Vehicle>) -> Seq<Vehicle> {
    spec_retired(spec_flagged(spec_advanced(s)))
}

/// Every vehicle the partition keeps is one of the originals.
pub proof fn lemma_kept_membership(s: Seq<Vehicle>)
    ensures
        forall|k: int|
            0 <= k < spec_kept(s).len() ==> exists|i: int|
                0 <= i < s.len() && #[trigger] spec_kept(s)[k] == s[i],
    decreases s.len(),
{
    if s.len() > 0 {
        lemma_kept_membership(s.drop_last());
        assert forall|k: int| 0 <= k < spec_kept(s).len() implies exists|i: int|
            0 <= i < s.len() && #[trigger] spec_kept(s)[k] == s[i] by {
            if k < spec_kept(s.drop_last()).len() {
                let i = choose|i: int|
                    0 <= i < s.drop_last().len() && spec_kept(s.drop_last())[k] == s.drop_last()[i];
                assert(spec_kept(s)[k] == s[i]);
            } else {
                assert(spec_kept(s)[k] == s[s.len() - 1]);
            }
        }
    }
}

/// Law: after a full tick of a well-formed population, every live
/// vehicle's speed lies within `[MIN_SPEED, MAX_SPEED]`.
pub proof fn lemma_live_speeds_in_bounds(s: Seq<Vehicle>)
    requires
        all_wf(s),
        all_pos_bounded(s),
    ensures
        forall|k: int|
            0 <= k < spec_tick_live(s).len() ==> crate::config::MIN_SPEED <= (
            #[trigger] spec_tick_live(s)[k]).speed <= crate::config::MAX_SPEED,
{
    let adv = spec_advanced(s);
    let flg = spec_flagged(adv);
    assert forall|i: int| 0 <= i < flg.len() implies vehicle_wf(#[trigger] flg[i]) by {
        lemma_step_preserves_wf(s[i], s);
        assert(flg[i] == spec_flag_one(adv, i));
    }
    lemma_kept_membership(flg);
    assert forall|k: int|
        0 <= k < spec_tick_live(s).len() implies crate::config::MIN_SPEED <= (
    #[trigger] spec_tick_live(s)[k]).speed <= crate::config::MAX_SPEED by {
        let i = choose|i: int| 0 <= i < flg.len() && spec_kept(flg)[k] == flg[i];
        assert(vehicle_wf(flg[i]));
    }
}

/// Law: in every tick, each vehicle's observable state change follows
/// the edges of the motion state machine; in particular none skips from
/// Approaching to Exiting or falls back from Crossing to Waiting.
pub proof fn lemma_advanced_transitions_follow_edges(s: Seq<Vehicle>)
    requires
        all_wf(s),
        all_pos_bounded(s),
    ensures
        forall|i: int|
            0 <= i < s.len() ==> crate::vehicle::spec_transition_allowed(
                (#[trigger] s[i]).state,
                spec_advanced(s)[i].state,
            ),
{
    assert forall|i: int| 0 <= i < s.len() implies crate::vehicle::spec_transition_allowed(
        (#[trigger] s[i]).state,
        spec_advanced(s)[i].state,
    ) by {
        crate::vehicle::lemma_transitions_follow_edges(s[i], s);
    }
}

/// Law (mutual exclusion at entry, population form): in a tick whose
/// snapshot holds an occupant of the intersection box with a route
/// conflicting with vehicle `i`'s, vehicle `i` cannot enter the box
/// this tick.
pub proof fn lemma_no_entry_into_occupied_box(s: Seq<Vehicle>, i: int)
    requires
        all_wf(s),
        all_pos_bounded(s),
        0 <= i < s.len(),
        !crate::geometry::spec_in_intersection(s[i].x as int, s[i].y as int),
        crate::collision::spec_conflict_occupant(s[i], s),
    ensures
        !crate::geometry::spec_in_intersection(
            spec_advanced(s)[i].x as int,
            spec_advanced(s)[i].y as int,
        ),
{
    crate::vehicle::lemma_no_entry_while_conflict_occupied(s[i], s);
}

/// Law (mutual exclusion, population form): two vehicles on conflicting
/// routes, both outside the intersection box before the tick, never
/// both end the tick inside it — the tie between two simultaneous
/// arrivals is broken deterministically from the snapshot, the
/// higher-id vehicle yielding at its stop line.
pub proof fn lemma_no_simultaneous_conflicting_entry(s: Seq<Vehicle>, i: int, j: int)
    requires
        all_wf(s),
        all_pos_bounded(s),
        ids_unique(s),
        0 <= i < s.len(),
        0 <= j < s.len(),
        i != j,
        crate::types::spec_routes_conflict(s[i].lane, s[j].lane),
        !crate::geometry::spec_in_intersection(s[i].x as int, s[i].y as int),
        !crate::geometry::spec_in_intersection(s[j].x as int, s[j].y as int),
    ensures
        !(crate::geometry::spec_in_intersection(
            spec_advanced(s)[i].x as int,
            spec_advanced(s)[i].y as int,
        ) && crate::geometry::spec_in_intersection(
            spec_advanced(s)[j].x as int,
            spec_advanced(s)[j].y as int,
        )),
{
    let a = spec_advanced(s)[i];
    let b = spec_advanced(s)[j];
    if crate::geometry::spec_in_intersection(a.x as int, a.y as int)
        && crate::geometry::spec_in_intersection(b.x as int, b.y as int) {
        crate::vehicle::lemma_entry_needs_candidacy(s[i], s);
        crate::vehicle::lemma_entry_needs_candidacy(s[j], s);
        assert(s[i].id != s[j].id);
        if s[i].id < s[j].id {
            crate::vehicle::lemma_no_entry_beside_prior_contender(s[j], s, i);
        } else {
            crate::vehicle::lemma_no_entry_beside_prior_contender(s[i], s, j);
        }
    }
}

/// Law (idempotence of snapshotting): the tick pipeline is a pure
/// function of the pre-tick snapshot, so computing the update step a
/// second time against the same snapshot yields the same vehicle
/// states, whatever order the per-vehicle updates ran in.
pub proof fn lemma_tick_deterministic(a: Seq<Vehicle>, b: Seq<Vehicle>)
    requires
        a == b,
    ensures
        spec_advanced(a) == spec_advanced(b),
        spec_tick_live(a) == spec_tick_live(b),
        spec_tick_retired(a) == spec_tick_retired(b),
{
}

/// One simulation tick: processes this tick's spawn requests, advances
/// every vehicle against the pre-tick snapshot, flags near misses,
/// retires vehicles that left the world plane into the completed
/// collection, and recomputes the aggregate statistics from it.
///
/// The live collection afterwards is exactly the tick pipeline applied
/// to the old population plus the (up to four) vehicles the spawn step
/// appended; with no spawn trigger set the tick is deterministic.
pub fn traffic_manager(
    input: &mut InputHandler,
    vehicles: &mut Vec<Vehicle>,
    statistics: &mut Statistics,
    completed_vehicles: &mut Vec<Vehicle>,
    simulation: &mut Simulation,
)
    requires
        all_wf(old(vehicles)@),
        all_in_world(old(vehicles)@),
        ids_below(old(vehicles)@, old(simulation).next_vehicle_id as int),
        ids_unique(old(vehicles)@),
        old(simulation).next_vehicle_id <= usize::MAX - 4,
    ensures
        exists|spawned: Seq<Vehicle>|
            {
                &&& crate::input::spawn_outcome_ok(
                    *old(input),
                    old(vehicles)@,
                    old(simulation).next_vehicle_id as int,
                    old(vehicles)@ + spawned,
                    final(simulation).next_vehicle_id as int,
                )
                &&& all_wf(old(vehicles)@ + spawned)
                &&& final(vehicles)@ == #[trigger] spec_tick_live(old(vehicles)@ + spawned)
                &&& final(completed_vehicles)@ == old(completed_vehicles)@ + spec_tick_retired(
                    old(vehicles)@ + spawned,
                )
            },
        !crate::input::spec_any_trigger(*old(input)) ==> {
            &&& final(vehicles)@ == spec_tick_live(old(vehicles)@)
            &&& final(completed_vehicles)@ == old(completed_vehicles)@ + spec_tick_retired(
                old(vehicles)@,
            )
            &&& *final(simulation) == *old(simulation)
        },
        all_wf(final(vehicles)@),
        all_in_world(final(vehicles)@),
        ids_below(final(vehicles)@, final(simulation).next_vehicle_id as int),
        ids_unique(final(vehicles)@),
        old(simulation).next_vehicle_id <= final(simulation).next_vehicle_id <= old(
            simulation,
        ).next_vehicle_id + 4,
        *final(statistics) == spec_stats_of(*old(statistics), final(completed_vehicles)@),
        final(input).quit == old(input).quit,
{
    let ghost v0 = vehicles@;
    proof {
        assert forall|k: int| 0 <= k < v0.len() implies pos_bounded(#[trigger] v0[k]) by {
            assert(spec_in_world(v0[k].x as int, v0[k].y as int));
        }
    }
    input.spawn_cars(vehicles, simulation);
    let ghost mid = vehicles@;
    let ghost spawned = mid.skip(v0.len() as int);
    proof {
        assert(mid =~= v0 + spawned);
        assert forall|k: int| 0 <= k < mid.len() implies vehicle_wf(#[trigger] mid[k])
            && spec_in_world(mid[k].x as int, mid[k].y as int) by {
            if k < v0.len() {
                assert(mid[k] == v0[k]);
            } else {
                assert(spawned_ok(mid[k], mid.take(k)));
            }
        }
    }
    advance_vehicles(vehicles);
    let ghost adv = vehicles@;
    proof {
        assert forall|k: int| 0 <= k < adv.len() implies pos_bounded(#[trigger] adv[k]) && (
        #[trigger] adv[k]).id == mid[k].id by {
            lemma_step_position_delta(mid[k], mid);
        }
    }
    flag_near_misses(vehicles);
    let ghost flg = vehicles@;
    proof {
        assert forall|k: int| 0 <= k < flg.len() implies (#[trigger] flg[k]).id == mid[k].id by {
            assert(flg[k] == spec_flag_one(adv, k));
        }
        assert(ids_unique(flg));
        assert(ids_below(flg, simulation.next_vehicle_id as int));
    }
    retire_vehicles(vehicles, completed_vehicles);
    statistics.calculate_intersection_stats(completed_vehicles.as_slice());
    proof {
        let live = vehicles@;
        assert(live == spec_tick_live(mid));
        assert(spec_tick_live(v0 + spawned) == spec_tick_live(mid));
        assert forall|k: int| 0 <= k < live.len() implies vehicle_wf(#[trigger] live[k]) && (
        #[trigger] live[k]).id < simulation.next_vehicle_id by {
            let i = choose|i: int| 0 <= i < flg.len() && live[k] == flg[i];
            assert(vehicle_wf(flg[i]));
        }
        if !crate::input::spec_any_trigger(*old(input)) {
            assert(mid == v0);
        }
    }
}

} // verus!


//! Aggregate statistics over completed vehicles.

use vstd::prelude::*;

use crate::collision::{all_pos_bounded, spec_vehicle_dist2};
use crate::geometry::dist2;
use crate::vehicle::Vehicle;

verus! {

/// The six aggregate counters the simulation exposes.
#[derive(Clone, Copy, Eq, PartialEq, Debug, Structural)]
pub struct Statistics {
    pub max_vehicles_passed: usize,
    pub max_velocity: i64,
    pub min_velocity: i64,
    pub max_crossing_time: u64,
    pub min_crossing_time: u64,
    pub close_calls: usize,
}

/// Largest `max_speed_reached` among the first `n` vehicles.
pub open spec fn spec_max_speed_of(s: Seq<Vehicle>, n: int) -> int
    decreases n,
{
    if n <= 1 {
        s[0].max_speed_reached as int
    } else {
        let rest = spec_max_speed_of(s, n - 1);
        if s[n - 1].max_speed_reached > rest {
            s[n - 1].max_speed_reached as int
        } else {
            rest
        }
    }
}

/// Smallest `min_speed_reached` among the first `n` vehicles.
pub open spec fn spec_min_speed_of(s: Seq<Vehicle>, n: int) -> int
    decreases n,
{
    if n <= 1 {
        s[0].min_speed_reached as int
    } else {
        let rest = spec_min_speed_of(s, n - 1);
        if s[n - 1].min_speed_reached < rest {
            s[n - 1].min_speed_reached as int
        } else {
            rest
        }
    }
}

/// Whether any of the first `n` vehicles ever entered the intersection.
pub open spec fn spec_any_crossed(s: Seq<Vehicle>, n: int) -> bool {
    exists|i: int| 0 <= i < n && (#[trigger] s[i]).entered_intersection
}

/// Longest time spent in the intersection among the first `n` vehicles
/// that entered it (0 when none did).
pub open spec fn spec_max_time_of(s: Seq<Vehicle>, n: int) -> int
    decreases n,
{
    if n <= 0 {
        0
    } else {
        let rest = spec_max_time_of(s, n - 1);
        if s[n - 1].entered_intersection && s[n - 1].time_in_intersection > rest {
            s[n - 1].time_in_intersection as int
        } else {
            rest
        }
    }
}

/// Shortest time spent in the intersection among the first `n` vehicles
/// that entered it (`u64::MAX` when none did).
pub open spec fn spec_min_time_of(s: Seq<Vehicle>, n: int) -> int
    decreases n,
{
    if n <= 0 {
        u64::MAX as int
    } else {
        let rest = spec_min_time_of(s, n - 1);
        if s[n - 1].entered_intersection && s[n - 1].time_in_intersection < rest {
            s[n - 1].time_in_intersection as int
        } else {
            rest
        }
    }
}

/// How many of the first `n` vehicles were ever flagged for a near
/// miss.
pub open spec fn spec_close_call_count(s: Seq<Vehicle>, n: int) -> int
    decreases n,
{
    if n <= 0 {
        0
    } else {
        spec_close_call_count(s, n - 1) + if s[n - 1].had_close_call {
            1int
        } else {
            0int
        }
    }
}

/// Whether live vehicle `i` has a later neighbour within its own safe
/// following distance.
pub open spec fn spec_pair_close(s: Seq<Vehicle>, i: int) -> bool {
    exists|j: int|
        i < j < s.len() && spec_vehicle_dist2(s[i], #[trigger] s[j]) < s[i].collision.safe_distance
            * s[i].collision.safe_distance
}

/// How many of the first `n` live vehicles have a later neighbour
/// within their safe following distance.
pub open spec fn spec_pair_close_count(s: Seq<Vehicle>, n: int) -> int
    decreases n,
{
    if n <= 0 {
        0
    } else {
        spec_pair_close_count(s, n - 1) + if spec_pair_close(s, n - 1) {
            1int
        } else {
            0int
        }
    }
}

/// The counters recomputed from a completed collection `s`, starting
/// from `prev`: an empty collection changes nothing, and the crossing
/// times keep their previous values while no completed vehicle ever
/// entered the box.
pub open spec fn spec_stats_of(prev: Statistics, s: Seq<Vehicle>) -> Statistics {
    if s.len() == 0 {
        prev
    } else {
        let n = s.len() as int;
        Statistics {
            max_vehicles_passed: s.len() as usize,
            max_velocity: spec_max_speed_of(s, n) as i64,
            min_velocity: spec_min_speed_of(s, n) as i64,
            max_crossing_time: if spec_any_crossed(s, n) {
                spec_max_time_of(s, n) as u64
            } else {
                prev.max_crossing_time
            },
            min_crossing_time: if spec_any_crossed(s, n) {
                spec_min_time_of(s, n) as u64
            } else {
                prev.min_crossing_time
            },
            close_calls: spec_close_call_count(s, n) as usize,
        }
    }
}

impl Statistics {
    /// Counters before anything completed: zeros, with the minima at
    /// their sentinel values.
    pub fn new() -> (r: Self)
        ensures
            r.max_vehicles_passed == 0,
            r.max_velocity == 0,
            r.min_velocity == i64::MAX,
            r.max_crossing_time == 0,
            r.min_crossing_time == u64::MAX,
            r.close_calls == 0,
    {
        Statistics {
            max_vehicles_passed: 0,
            max_velocity: 0,
            min_velocity: i64::MAX,
            max_crossing_time: 0,
            min_crossing_time: u64::MAX,
            close_calls: 0,
        }
    }

    /// Recomputes the aggregates from the completed collection: the
    /// count of completed vehicles, the extreme speeds they reached,
    /// the extreme crossing times of those that entered the box, and
    /// the number flagged for a near miss.  An empty collection leaves
    /// every counter as it was, as do the crossing times when no
    /// completed vehicle entered the box.
    pub fn calculate_intersection_stats(&mut self, completed_vehicles: &[Vehicle])
        ensures
            *final(self) == spec_stats_of(*old(self), completed_vehicles@),
    {
        if completed_vehicles.len() == 0 {
            return ;
        }
        self.max_vehicles_passed = completed_vehicles.len();

        let mut max_v: i64 = completed_vehicles[0].max_speed_reached;
        let mut min_v: i64 = completed_vehicles[0].min_speed_reached;
        let mut max_t: u64 = 0;
        let mut min_t: u64 = u64::MAX;
        let mut crossed = false;
        let mut close: usize = 0;
        let mut i: usize = 0;
        while i < completed_vehicles.len()
            invariant
                0 < completed_vehicles@.len(),
                0 <= i <= completed_vehicles@.len(),
                max_v == spec_max_speed_of(completed_vehicles@, if i <= 1 {
                    1int
                } else {
                    i as int
                }),
                min_v == spec_min_speed_of(completed_vehicles@, if i <= 1 {
                    1int
                } else {
                    i as int
                }),
                crossed == spec_any_crossed(completed_vehicles@, i as int),
                max_t == spec_max_time_of(completed_vehicles@, i as int),
                min_t == spec_min_time_of(completed_vehicles@, i as int),
                close == spec_close_call_count(completed_vehicles@, i as int),
                close <= i,
            decreases completed_vehicles@.len() - i,
        {
            let v = &completed_vehicles[i];
            if v.max_speed_reached > max_v {
                max_v = v.max_speed_reached;
            }
            if v.min_speed_reached < min_v {
                min_v = v.min_speed_reached;
            }
            if v.entered_intersection {
                crossed = true;
                if v.time_in_intersection > max_t {
                    max_t = v.time_in_intersection;
                }
                if v.time_in_intersection < min_t {
                    min_t = v.time_in_intersection;
                }
            }
            if v.had_close_call {
                close = close + 1;
            }
            i = i + 1;
        }
        self.max_velocity = max_v;
        self.min_velocity = min_v;
        self.close_calls = close;
        if crossed {
            self.max_crossing_time = max_t;
            self.min_crossing_time = min_t;
        }
    }

    /// Recomputes the counters from the live population instead: the
    /// live count, the extremes of the current speeds, and the number
    /// of vehicles with a later neighbour inside their safe following
    /// distance.  An empty population leaves the counters as they were.
    pub fn calculate_simple_stats(&mut self, vehicles: &[Vehicle])
        requires
            all_pos_bounded(vehicles@),
            forall|i: int|
                0 <= i < vehicles@.len() ==> 0 <= (#[trigger] vehicles@[i]).collision.safe_distance
                    <= 200_000,
        ensures
            vehicles@.len() == 0 ==> *final(self) == *old(self),
            vehicles@.len() > 0 ==> {
                let s = vehicles@;
                let n = s.len() as int;
                &&& final(self).max_vehicles_passed == n
                &&& final(self).max_velocity == spec_current_max_speed_of(s, n)
                &&& final(self).min_velocity == spec_current_min_speed_of(s, n)
                &&& final(self).close_calls == spec_pair_close_count(s, n)
                &&& final(self).max_crossing_time == old(self).max_crossing_time
                &&& final(self).min_crossing_time == old(self).min_crossing_time
            },
    {
        if vehicles.len() == 0 {
            return ;
        }
        self.max_vehicles_passed = vehicles.len();

        let mut max_v: i64 = vehicles[0].speed;
        let mut min_v: i64 = vehicles[0].speed;
        let mut close: usize = 0;
        let mut i: usize = 0;
        while i < vehicles.len()
            invariant
                0 < vehicles@.len(),
                0 <= i <= vehicles@.len(),
                all_pos_bounded(vehicles@),
                forall|k: int|
                    0 <= k < vehicles@.len() ==> 0 <= (
                    #[trigger] vehicles@[k]).collision.safe_distance <= 200_000,
                max_v == spec_current_max_speed_of(vehicles@, if i <= 1 {
                    1int
                } else {
                    i as int
                }),
                min_v == spec_current_min_speed_of(vehicles@, if i <= 1 {
                    1int
                } else {
                    i as int
                }),
                close == spec_pair_close_count(vehicles@, i as int),
                close <= i,
            decreases vehicles@.len() - i,
        {
            let v = &vehicles[i];
            if v.speed > max_v {
                max_v = v.speed;
            }
            if v.speed < min_v {
                min_v = v.speed;
            }
            let mut found = false;
            let mut j: usize = i + 1;
            while j < vehicles.len()
                invariant
                    0 <= i < vehicles@.len(),
                    i < j <= vehicles@.len(),
                    *v == vehicles@[i as int],
                    all_pos_bounded(vehicles@),
                    forall|k: int|
                        0 <= k < vehicles@.len() ==> 0 <= (
                        #[trigger] vehicles@[k]).collision.safe_distance <= 200_000,
                    found == exists|k: int|
                        i < k < j && spec_vehicle_dist2(vehicles@[i as int], #[trigger] vehicles@[k])
                            < vehicles@[i as int].collision.safe_distance * vehicles@[i as int].collision.safe_distance,
                decreases vehicles@.len() - j,
            {
                let w = &vehicles[j];
                let d2 = dist2(v.x, v.y, w.x, w.y);
                let sd = v.collision.safe_distance;
                proof {
                    assert(0 <= sd * sd <= 40_000_000_000) by (nonlinear_arith)
                        requires
                            0 <= sd <= 200_000,
                    ;
                }
                if d2 < sd * sd {
                    found = true;
                }
                j = j + 1;
            }
            if found {
                close = close + 1;
            }
            i = i + 1;
        }
        self.max_velocity = max_v;
        self.min_velocity = min_v;
        self.close_calls = close;
    }
}

/// The maximum of the reached speeds never falls below the first
/// vehicle's.
proof fn lemma_max_speed_of_lower(s: Seq<Vehicle>, n: int)
    requires
        1 <= n,
    ensures
        spec_max_speed_of(s, n) >= s[0].max_speed_reached,
        i64::MIN <= spec_max_speed_of(s, n) <= i64::MAX,
    decreases n,
{
    if n > 1 {
        lemma_max_speed_of_lower(s, n - 1);
    }
}

/// The minimum of the reached speeds never exceeds the first vehicle's.
proof fn lemma_min_speed_of_upper(s: Seq<Vehicle>, n: int)
    requires
        1 <= n,
    ensures
        spec_min_speed_of(s, n) <= s[0].min_speed_reached,
        i64::MIN <= spec_min_speed_of(s, n) <= i64::MAX,
    decreases n,
{
    if n > 1 {
        lemma_min_speed_of_upper(s, n - 1);
    }
}

/// Law: recomputing the counters over a nonempty completed collection
/// whose vehicles each reached their minimum speed no later than their
/// maximum leaves `max_velocity` at least `min_velocity`.
pub proof fn lemma_stats_velocity_order(prev: Statistics, s: Seq<Vehicle>)
    requires
        s.len() > 0,
        forall|i: int|
            0 <= i < s.len() ==> (#[trigger] s[i]).min_speed_reached <= s[i].max_speed_reached,
    ensures
        spec_stats_of(prev, s).max_velocity >= spec_stats_of(prev, s).min_velocity,
{
    let n = s.len() as int;
    lemma_max_speed_of_lower(s, n);
    lemma_min_speed_of_upper(s, n);
    assert(s[0].min_speed_reached <= s[0].max_speed_reached);
}

/// Largest current speed among the first `n` live vehicles.
pub open spec fn spec_current_max_speed_of(s: Seq<Vehicle>, n: int) -> int
    decreases n,
{
    if n <= 1 {
        s[0].speed as int
    } else {
        let rest = spec_current_max_speed_of(s, n - 1);
        if s[n - 1].speed > rest {
            s[n - 1].speed as int
        } else {
            rest
        }
    }
}

/// Smallest current speed among the first `n` live vehicles.
pub open spec fn spec_current_min_speed_of(s: Seq<Vehicle>, n: int) -> int
    decreases n,
{
    if n <= 1 {
        s[0].speed as int
    } else {
        let rest = spec_current_min_speed_of(s, n - 1);
        if s[n - 1].speed < rest {
            s[n - 1].speed as int
        } else {
            rest
        }
    }
}

} // verus!

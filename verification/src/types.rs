//! Directions, routes and vehicle states.

use vstd::prelude::*;

verus! {

/// One of the four compass approaches and exits of the intersection.
///
/// North is the top of the plane (decreasing y), South the bottom
/// (increasing y), East the right (increasing x) and West the left
/// (decreasing x).
#[derive(Copy, Clone, Eq, PartialEq, Hash, Debug, Structural)]
pub enum Direction {
    North,
    South,
    East,
    West,
}

/// Cosmetic tag handed to the rendering collaborator.
#[derive(Copy, Clone, Eq, PartialEq, Hash, Debug, Structural)]
pub enum VehicleColor {
    Blue,
    Green,
    Pink,
    Yellow,
}

/// The motion state of a vehicle; see `Vehicle` for the transition rules.
#[derive(Copy, Clone, Eq, PartialEq, Hash, Debug, Structural)]
pub enum VehicleState {
    Approaching,
    Waiting,
    Crossing,
    Exiting,
}

/// The turn a route makes through the intersection, derived from the
/// compass relationship between its origin and its destination.
#[derive(Copy, Clone, Eq, PartialEq, Hash, Debug, Structural)]
pub enum Route {
    Right,
    Straight,
    Left,
}

/// An (origin, destination) pair identifying one of the twelve legal
/// routes through the intersection.  Immutable once assigned to a vehicle.
#[derive(Copy, Clone, Eq, PartialEq, Hash, Debug, Structural)]
pub struct Lane {
    pub from: Direction,
    pub to: Direction,
}

/// The direction opposite to `d`.
pub open spec fn spec_opposite(d: Direction) -> Direction {
    match d {
        Direction::North => Direction::South,
        Direction::South => Direction::North,
        Direction::East => Direction::West,
        Direction::West => Direction::East,
    }
}

/// The direction a right turn leads to when travelling along `d`.
pub open spec fn spec_right_of(d: Direction) -> Direction {
    match d {
        Direction::North => Direction::East,
        Direction::East => Direction::South,
        Direction::South => Direction::West,
        Direction::West => Direction::North,
    }
}

/// True of directions along the vertical (north-south) axis.
pub open spec fn spec_is_vertical(d: Direction) -> bool {
    d == Direction::North || d == Direction::South
}

/// A lane is legal when it does not turn back onto its own approach.
pub open spec fn lane_valid(lane: Lane) -> bool {
    lane.from != lane.to
}

/// The heading a vehicle starts with: out of its origin approach.
pub open spec fn spec_initial_heading(lane: Lane) -> Direction {
    spec_opposite(lane.from)
}

/// The turn type of a lane, judged from the heading it starts with.
pub open spec fn spec_turn_type(lane: Lane) -> Route {
    let heading = spec_initial_heading(lane);
    if lane.to == heading {
        Route::Straight
    } else if lane.to == spec_right_of(heading) {
        Route::Right
    } else {
        Route::Left
    }
}

/// Two lanes conflict when their paths geometrically cross inside the
/// intersection box: the exits lie on perpendicular axes and neither lane
/// is a right turn, which hugs its corner and yields no crossing.
pub open spec fn spec_routes_conflict(a: Lane, b: Lane) -> bool {
    &&& spec_is_vertical(a.to) != spec_is_vertical(b.to)
    &&& spec_turn_type(a) != Route::Right
    &&& spec_turn_type(b) != Route::Right
}

/// Law (right-of-way exemption): a route pair with a right turn on
/// either side never conflicts, whatever the other route is.
pub proof fn lemma_right_turns_never_conflict(a: Lane, b: Lane)
    ensures
        spec_turn_type(a) == Route::Right || spec_turn_type(b) == Route::Right
            ==> !spec_routes_conflict(a, b),
{
}

#[verifier::when_used_as_spec(spec_opposite)]
pub fn opposite(d: Direction) -> (r: Direction)
    ensures
        r == spec_opposite(d),
{
    match d {
        Direction::North => Direction::South,
        Direction::South => Direction::North,
        Direction::East => Direction::West,
        Direction::West => Direction::East,
    }
}

#[verifier::when_used_as_spec(spec_right_of)]
pub fn right_of(d: Direction) -> (r: Direction)
    ensures
        r == spec_right_of(d),
{
    match d {
        Direction::North => Direction::East,
        Direction::East => Direction::South,
        Direction::South => Direction::West,
        Direction::West => Direction::North,
    }
}

#[verifier::when_used_as_spec(spec_is_vertical)]
pub fn is_vertical(d: Direction) -> (r: bool)
    ensures
        r == spec_is_vertical(d),
{
    d == Direction::North || d == Direction::South
}

/// The turn type of a lane: straight through, or a left or right turn.
#[verifier::when_used_as_spec(spec_turn_type)]
pub fn turn_type(lane: Lane) -> (r: Route)
    ensures
        r == spec_turn_type(lane),
{
    let heading = opposite(lane.from);
    if lane.to == heading {
        Route::Straight
    } else if lane.to == right_of(heading) {
        Route::Right
    } else {
        Route::Left
    }
}

/// Whether the paths of two lanes cross inside the intersection box.
#[verifier::when_used_as_spec(spec_routes_conflict)]
pub fn routes_conflict(a: Lane, b: Lane) -> (r: bool)
    ensures
        r == spec_routes_conflict(a, b),
{
    is_vertical(a.to) != is_vertical(b.to) && turn_type(a) != Route::Right && turn_type(b)
        != Route::Right
}

impl Lane {
    /// Builds the lane running from `from` to `to`.
    pub fn set(from: Direction, to: Direction) -> (r: Self)
        ensures
            r.from == from,
            r.to == to,
    {
        Lane { from, to }
    }
}

} // verus!

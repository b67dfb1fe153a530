//! Plane geometry helpers: squared distances, an exact integer square
//! root, and the predicates delimiting the world and the intersection box.

use vstd::prelude::*;

use crate::config::{BOX_MAX, BOX_MIN, EXIT_MARGIN, WORLD_MAX, WORLD_MIN};
use crate::types::Direction;

verus! {

/// Coordinates handled by the exec geometry helpers stay in this range,
/// far wider than the world plane, so no product below can overflow.
pub const COORD_LIMIT: i64 = 100_000;

/// Squared Euclidean distance between two points.
pub open spec fn spec_dist2(ax: int, ay: int, bx: int, by: int) -> int {
    (ax - bx) * (ax - bx) + (ay - by) * (ay - by)
}

/// The greatest `r >= 0` with `r * r <= n` (0 for negative `n`).
pub open spec fn sqrt_floor(n: int) -> int
    decreases n,
{
    if n < 1 {
        0
    } else {
        let r = sqrt_floor(n - 1);
        if (r + 1) * (r + 1) <= n {
            r + 1
        } else {
            r
        }
    }
}

/// `sqrt_floor(n)` brackets `n` between two consecutive squares.
pub proof fn lemma_sqrt_floor_bounds(n: int)
    requires
        0 <= n,
    ensures
        0 <= sqrt_floor(n),
        sqrt_floor(n) * sqrt_floor(n) <= n,
        n < (sqrt_floor(n) + 1) * (sqrt_floor(n) + 1),
    decreases n,
{
    if n >= 1 {
        lemma_sqrt_floor_bounds(n - 1);
        let r = sqrt_floor(n - 1);
        if (r + 1) * (r + 1) <= n {
            assert(n == (r + 1) * (r + 1));
            assert((r + 1) * (r + 1) < (r + 2) * (r + 2)) by (nonlinear_arith)
                requires
                    0 <= r,
            ;
        }
    }
}

/// Only one value brackets `n` between consecutive squares, so any such
/// value is `sqrt_floor(n)`.
pub proof fn lemma_sqrt_floor_unique(n: int, r: int)
    requires
        0 <= n,
        0 <= r,
        r * r <= n,
        n < (r + 1) * (r + 1),
    ensures
        r == sqrt_floor(n),
{
    let s = sqrt_floor(n);
    lemma_sqrt_floor_bounds(n);
    if r < s {
        assert((r + 1) * (r + 1) <= s * s) by (nonlinear_arith)
            requires
                0 <= r,
                r + 1 <= s,
        ;
    }
    if s < r {
        assert((s + 1) * (s + 1) <= r * r) by (nonlinear_arith)
            requires
                0 <= s,
                s + 1 <= r,
        ;
    }
}

/// A strict square bound carries over to the root: `n < b * b` forces
/// `sqrt_floor(n) < b`.
pub proof fn lemma_sqrt_floor_lt_of_lt_square(n: int, b: int)
    requires
        0 <= n,
        0 <= b,
        n < b * b,
    ensures
        sqrt_floor(n) < b,
{
    let s = sqrt_floor(n);
    lemma_sqrt_floor_bounds(n);
    if b <= s {
        assert(b * b <= s * s) by (nonlinear_arith)
            requires
                0 <= b,
                b <= s,
        ;
    }
}

/// A square below `n` bounds the root from below: `b * b <= n` forces
/// `b <= sqrt_floor(n)`.
pub proof fn lemma_sqrt_floor_ge_of_square_le(n: int, b: int)
    requires
        0 <= n,
        0 <= b,
        b * b <= n,
    ensures
        b <= sqrt_floor(n),
{
    let s = sqrt_floor(n);
    lemma_sqrt_floor_bounds(n);
    if s < b {
        assert(s + 1 <= b);
        assert((s + 1) * (s + 1) <= b * b) by (nonlinear_arith)
            requires
                0 <= s,
                s + 1 <= b,
        ;
    }
}

/// Squared distance between two in-range points, exactly `spec_dist2`.
pub fn dist2(ax: i64, ay: i64, bx: i64, by: i64) -> (r: i64)
    requires
        -COORD_LIMIT <= ax <= COORD_LIMIT,
        -COORD_LIMIT <= ay <= COORD_LIMIT,
        -COORD_LIMIT <= bx <= COORD_LIMIT,
        -COORD_LIMIT <= by <= COORD_LIMIT,
    ensures
        r == spec_dist2(ax as int, ay as int, bx as int, by as int),
        0 <= r <= 80_000_000_000,
{
    let dx: i64 = ax - bx;
    let dy: i64 = ay - by;
    proof {
        assert(0 <= dx * dx <= 40_000_000_000) by (nonlinear_arith)
            requires
                -200_000 <= dx <= 200_000,
        ;
        assert(0 <= dy * dy <= 40_000_000_000) by (nonlinear_arith)
            requires
                -200_000 <= dy <= 200_000,
        ;
    }
    dx * dx + dy * dy
}

/// Exact integer square root by binary search.
pub fn isqrt(n: i64) -> (r: i64)
    requires
        0 <= n <= 1_000_000_000_000,
    ensures
        r == sqrt_floor(n as int),
        0 <= r <= 1_000_000,
{
    let mut lo: i64 = 0;
    let mut hi: i64 = 1_000_001;
    proof {
        assert(1_000_001i64 * 1_000_001i64 > 1_000_000_000_000) by (nonlinear_arith);
    }
    while lo + 1 < hi
        invariant
            0 <= lo < hi <= 1_000_001,
            lo * lo <= n,
            n < hi * hi,
        decreases hi - lo,
    {
        let mid: i64 = lo + (hi - lo) / 2;
        proof {
            assert(0 <= mid * mid <= 1_000_001i64 * 1_000_001i64) by (nonlinear_arith)
                requires
                    0 <= mid <= 1_000_001,
            ;
        }
        if mid * mid <= n {
            lo = mid;
        } else {
            hi = mid;
        }
    }
    proof {
        lemma_sqrt_floor_unique(n as int, lo as int);
    }
    lo
}

/// Whether a point lies inside the fixed intersection bounding box.
pub open spec fn spec_in_intersection(x: int, y: int) -> bool {
    &&& BOX_MIN <= x <= BOX_MAX
    &&& BOX_MIN <= y <= BOX_MAX
}

/// Whether a point has passed beyond the intersection box along `d`.
pub open spec fn spec_past_intersection(d: Direction, x: int, y: int) -> bool {
    match d {
        Direction::North => y < BOX_MIN,
        Direction::South => y > BOX_MAX,
        Direction::East => x > BOX_MAX,
        Direction::West => x < BOX_MIN,
    }
}

/// Signed distance, along heading `d`, from a point to the stop line at
/// the near edge of the intersection box; positive before the line.
pub open spec fn spec_dist_to_stop_line(d: Direction, x: int, y: int) -> int {
    match d {
        Direction::North => y - BOX_MAX,
        Direction::South => BOX_MIN - y,
        Direction::East => BOX_MIN - x,
        Direction::West => x - BOX_MAX,
    }
}

/// Exec mirror of `spec_dist_to_stop_line`.
pub fn dist_to_stop_line(d: Direction, x: i64, y: i64) -> (r: i64)
    requires
        -COORD_LIMIT <= x <= COORD_LIMIT,
        -COORD_LIMIT <= y <= COORD_LIMIT,
    ensures
        r == spec_dist_to_stop_line(d, x as int, y as int),
{
    match d {
        Direction::North => y - BOX_MAX,
        Direction::South => BOX_MIN - y,
        Direction::East => BOX_MIN - x,
        Direction::West => x - BOX_MAX,
    }
}

/// Whether a point lies on the world plane or within the retirement
/// margin around it; a vehicle beyond this is removed.
pub open spec fn spec_in_world(x: int, y: int) -> bool {
    &&& WORLD_MIN - EXIT_MARGIN <= x <= WORLD_MAX + EXIT_MARGIN
    &&& WORLD_MIN - EXIT_MARGIN <= y <= WORLD_MAX + EXIT_MARGIN
}

pub fn in_intersection(x: i64, y: i64) -> (r: bool)
    ensures
        r == spec_in_intersection(x as int, y as int),
{
    BOX_MIN <= x && x <= BOX_MAX && BOX_MIN <= y && y <= BOX_MAX
}

pub fn past_intersection(d: Direction, x: i64, y: i64) -> (r: bool)
    ensures
        r == spec_past_intersection(d, x as int, y as int),
{
    match d {
        Direction::North => y < BOX_MIN,
        Direction::South => y > BOX_MAX,
        Direction::East => x > BOX_MAX,
        Direction::West => x < BOX_MIN,
    }
}

pub fn in_world(x: i64, y: i64) -> (r: bool)
    ensures
        r == spec_in_world(x as int, y as int),
{
    WORLD_MIN - EXIT_MARGIN <= x && x <= WORLD_MAX + EXIT_MARGIN && WORLD_MIN - EXIT_MARGIN <= y
        && y <= WORLD_MAX + EXIT_MARGIN
}

} // verus!

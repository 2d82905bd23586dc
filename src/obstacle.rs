use vstd::prelude::*;

use crate::player::{Player, CELL};
use crate::random::random_range;

verus! {

/// Gap centers are drawn from `[GAP_CENTER_MIN, GAP_CENTER_MAX)`.
pub const GAP_CENTER_MIN: i32 = 10;

/// Exclusive upper end of the gap centers drawn.
pub const GAP_CENTER_MAX: i32 = 40;

/// Gap size at score 0; each point narrows the gap by one.
pub const GAP_BASE: i32 = 20;

/// The gap never narrows below this size.
pub const GAP_FLOOR: i32 = 2;

/// One wall with a gap: `x` in world cells, `gap_y` and `size` in cells.
#[derive(Clone, Copy, Debug, PartialEq, Eq, Structural)]
pub struct Obstacle {
    pub x: i64,
    pub gap_y: i32,
    pub size: i32,
}

/// Gap size for a score: `max(GAP_FLOOR, GAP_BASE - score)`.
pub open spec fn gap_size_for(score: int) -> int {
    if GAP_BASE - score > GAP_FLOOR {
        GAP_BASE - score
    } else {
        GAP_FLOOR as int
    }
}

/// Half the gap size, rounded toward zero as integer division does.
pub open spec fn half_of(size: int) -> int {
    if size >= 0 {
        size / 2
    } else {
        -((-size) / 2)
    }
}

/// Whether a player at (`px`, `py`) strikes a wall at `x` with gap (`gap_y`, `size`).
pub open spec fn strikes(x: int, gap_y: int, size: int, px: int, py: int) -> bool {
    px == x && (py < (gap_y - half_of(size)) * CELL || py > (gap_y + half_of(size)) * CELL)
}

/// Gap size for `score`.
pub fn gap_size(score: u64) -> (r: i32)
    ensures
        r == gap_size_for(score as int),
        GAP_FLOOR <= r <= GAP_BASE,
{
    if score >= (GAP_BASE - GAP_FLOOR) as u64 {
        GAP_FLOOR
    } else {
        GAP_BASE - score as i32
    }
}

impl Obstacle {
    /// Whether `self` strikes `p`.
    pub open spec fn hits(self, p: Player) -> bool {
        strikes(self.x as int, self.gap_y as int, self.size as int, p.x as int, p.y as int)
    }

    /// The wall at `x` for `score` whose gap is centered on `gap_y`.
    pub fn with_gap(x: i64, score: u64, gap_y: i32) -> (o: Obstacle)
        ensures
            o.x == x,
            o.gap_y == gap_y,
            o.size == gap_size_for(score as int),
    {
        Obstacle { x, gap_y, size: gap_size(score) }
    }

    /// A wall at `x` for `score`, its gap centered at random.
    pub fn new(x: i64, score: u64) -> (o: Obstacle)
        ensures
            o.x == x,
            GAP_CENTER_MIN <= o.gap_y < GAP_CENTER_MAX,
            o.size == gap_size_for(score as int),
    {
        let gap_y = random_range(GAP_CENTER_MIN, GAP_CENTER_MAX);
        Obstacle::with_gap(x, score, gap_y)
    }

    /// Whether the player stands on this wall's column outside the gap.
    pub fn hit_obstacle(&self, player: &Player) -> (r: bool)
        ensures
            r == self.hits(*player),
    {
        let half_size: i64 = (self.size / 2) as i64;
        let does_x_match = player.x == self.x;
        let player_above_gap = player.y < (self.gap_y as i64 - half_size) * CELL;
        let player_below_gap = player.y > (self.gap_y as i64 + half_size) * CELL;
        does_x_match && (player_above_gap || player_below_gap)
    }

    /// The wall's column on a screen whose left edge is at world column `left`.
    pub fn screen_column(&self, left: i64) -> (r: i64)
        requires
            i64::MIN <= self.x - left <= i64::MAX,
        ensures
            r == self.x - left,
    {
        self.x - left
    }

    /// The wall's rows, as cells: it fills rows `0..r.0` above the gap and rows
    /// from `r.1` down to the bottom of the screen.
    pub fn wall_rows(&self) -> (r: (i64, i64))
        ensures
            r.0 == self.gap_y - half_of(self.size as int),
            r.1 == self.gap_y + half_of(self.size as int),
    {
        let half_size: i64 = (self.size / 2) as i64;
        (self.gap_y as i64 - half_size, self.gap_y as i64 + half_size)
    }
}

/// The gap size never grows as the score grows.
pub proof fn gap_size_non_increasing(a: int, b: int)
    requires
        a <= b,
    ensures
        gap_size_for(b) <= gap_size_for(a),
{
}

/// From a score of 18 on, the gap stays at its floor of 2.
pub proof fn gap_size_at_floor(s: int)
    requires
        s >= GAP_BASE - GAP_FLOOR,
    ensures
        gap_size_for(s) == GAP_FLOOR,
{
}

/// A player on the wall's column whose height is exactly the gap's center
/// never strikes the wall, whatever the (non-negative) gap size.
pub proof fn centered_player_never_hits(o: Obstacle, p: Player)
    requires
        p.x == o.x,
        p.y == o.gap_y * CELL,
        o.size >= 0,
    ensures
        !o.hits(p),
{
}

} // verus!

use vstd::prelude::*;

use crate::player::{Player, PlayerV};
use crate::rng::{fresh_rng, range_i32};

verus! {

/// Lowest row (inclusive) the gap center is ever drawn at.
pub const GAP_Y_LOW: i32 = 10;

/// Upper bound (exclusive) on the row the gap center is drawn at.
pub const GAP_Y_HIGH: i32 = 40;

/// A vertical obstacle column: a horizontal world position `x`, the row of
/// the center of its passable gap, and the total height of that gap.
pub struct Obstacle {
    pub x: i32,
    pub gap_y: i32,
    pub size: i32,
}

/// Mathematical image of an `Obstacle`.
pub ghost struct ObstacleV {
    pub x: int,
    pub gap_y: int,
    pub size: int,
}

impl View for Obstacle {
    type V = ObstacleV;

    open spec fn view(&self) -> ObstacleV {
        ObstacleV { x: self.x as int, gap_y: self.gap_y as int, size: self.size as int }
    }
}

impl ObstacleV {
    /// Well-formed: the gap center lies in the fixed band and the gap height
    /// is between its floor of 2 and the score-0 height of 20.
    pub open spec fn wf(self) -> bool {
        &&& 10 <= self.gap_y < 40
        &&& 2 <= self.size <= 20
    }
}

/// The single difficulty rule: a gap of `20 - score` rows, floored at 2.
pub open spec fn gap_size(score: int) -> int {
    if 20 - score < 2 {
        2
    } else {
        20 - score
    }
}

/// The player collides with an obstacle exactly when it is on the obstacle's
/// column and strictly outside the gap band
/// `[gap_y - size / 2, gap_y + size / 2]`; the boundary rows themselves are
/// passable.
pub open spec fn spec_collides(p: PlayerV, o: ObstacleV) -> bool {
    let half = o.size / 2;
    p.x == o.x && (p.y < o.gap_y - half || p.y > o.gap_y + half)
}

/// Off the obstacle's column there is never a collision, whatever the row.
pub proof fn lemma_no_collision_off_column(p: PlayerV, o: ObstacleV)
    requires
        p.x != o.x,
    ensures
        !spec_collides(p, o),
{
}

/// On the obstacle's column, a collision holds exactly strictly outside the
/// gap band, never on or strictly inside its boundary rows.
pub proof fn lemma_collision_on_column(p: PlayerV, o: ObstacleV)
    requires
        p.x == o.x,
    ensures
        o.gap_y - o.size / 2 <= p.y <= o.gap_y + o.size / 2 ==> !spec_collides(p, o),
        p.y < o.gap_y - o.size / 2 || p.y > o.gap_y + o.size / 2 ==> spec_collides(p, o),
{
}

impl Obstacle {
    /// An obstacle at `x` whose gap center is given rather than drawn, so
    /// callers and tests can fix it; the gap height follows the score rule.
    pub fn with_gap(x: i32, gap_y: i32, score: i32) -> (r: Obstacle)
        requires
            10 <= gap_y < 40,
            0 <= score,
        ensures
            r@ == (ObstacleV { x: x as int, gap_y: gap_y as int, size: gap_size(score as int) }),
            r@.wf(),
    {
        let shrunk = 20 - score;
        let size = if shrunk < 2 {
            2
        } else {
            shrunk
        };
        Obstacle { x, gap_y, size }
    }

    /// A fresh obstacle at `x`: the gap center is drawn uniformly from the
    /// fixed band, and the gap height is `max(2, 20 - score)`.
    pub fn generate(x: i32, score: i32) -> (r: Obstacle)
        requires
            0 <= score,
        ensures
            r@.x == x as int,
            r@.size == gap_size(score as int),
            r@.wf(),
    {
        let mut rng = fresh_rng();
        let gap_y = range_i32(&mut rng, GAP_Y_LOW, GAP_Y_HIGH);
        Obstacle::with_gap(x, gap_y, score)
    }

    /// The collision test, exactly as `spec_collides` states it.
    pub fn collides_with(&self, player: &Player) -> (r: bool)
        requires
            self@.wf(),
        ensures
            r == spec_collides(player@, self@),
    {
        let half_size = self.size / 2;
        let on_column = player.x == self.x;
        let above_gap = player.y < self.gap_y - half_size;
        let below_gap = player.y > self.gap_y + half_size;
        on_column && (above_gap || below_gap)
    }
}

} // verus!

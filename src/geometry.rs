//! Axis-aligned rectangle overlap, the one geometric primitive of the game.

use vstd::prelude::*;

verus! {

/// Two rectangles, each given by its top-left corner and its size, intersect:
/// their half-open extents overlap on both axes.
pub open spec fn rects_overlap(
    ax: int,
    ay: int,
    aw: int,
    ah: int,
    bx: int,
    by: int,
    bw: int,
    bh: int,
) -> bool {
    ax < bx + bw && bx < ax + aw && ay < by + bh && by < ay + ah
}

/// Whether the rectangle at (`x1`, `y1`) of size `w1` x `h1` intersects the
/// one at (`x2`, `y2`) of size `w2` x `h2`.
pub fn is_collision(x1: i64, y1: i64, w1: i64, h1: i64, x2: i64, y2: i64, w2: i64, h2: i64) -> (r:
    bool)
    ensures
        r == rects_overlap(
            x1 as int,
            y1 as int,
            w1 as int,
            h1 as int,
            x2 as int,
            y2 as int,
            w2 as int,
            h2 as int,
        ),
{
    (x1 as i128) < (x2 as i128) + (w2 as i128) && (x2 as i128) < (x1 as i128) + (w1 as i128) && (
    y1 as i128) < (y2 as i128) + (h2 as i128) && (y2 as i128) < (y1 as i128) + (h1 as i128)
}

/// Overlap does not depend on which of the two rectangles comes first.
pub proof fn lemma_overlap_symmetric(
    ax: int,
    ay: int,
    aw: int,
    ah: int,
    bx: int,
    by: int,
    bw: int,
    bh: int,
)
    ensures
        rects_overlap(ax, ay, aw, ah, bx, by, bw, bh) == rects_overlap(bx, by, bw, bh, ax, ay, aw, ah),
{
}

} // verus!

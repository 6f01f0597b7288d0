use vstd::prelude::*;

use crate::player::Player;
use crate::wall::Wall;

verus! {

/// Bound on the coordinates and extents that the collision arithmetic
/// accepts; generous enough for any play field the game uses, and small
/// enough that the edge computations cannot overflow `i64`.
pub const COLLISION_BOUND: i64 = 4_000_000_000_000;

/// Axis-aligned overlap of two boxes given by their centres and full
/// extents: each box spans half an extent to each side of its centre, and
/// the boxes overlap when they intersect strictly on both axes.
pub open spec fn overlaps(
    ax: int,
    ay: int,
    aw: int,
    ah: int,
    bx: int,
    by: int,
    bw: int,
    bh: int,
) -> bool {
    &&& ax - aw / 2 < bx + bw / 2
    &&& ax + aw / 2 > bx - bw / 2
    &&& ay + ah / 2 > by - bh / 2
    &&& ay - ah / 2 < by + bh / 2
}

/// Whether the player's box overlaps the wall's box.
pub open spec fn player_hits_wall(p: Player, wl: Wall) -> bool {
    overlaps(p.x as int, p.y as int, p.w as int, p.h as int, wl.x as int, wl.y as int, wl.w as int, wl.h as int)
}

/// Bounds under which the box test's arithmetic stays inside `i64`.
pub open spec fn box_bounded(x: int, y: int, w: int, h: int) -> bool {
    &&& -COLLISION_BOUND <= x <= COLLISION_BOUND
    &&& -COLLISION_BOUND <= y <= COLLISION_BOUND
    &&& 0 <= w <= COLLISION_BOUND
    &&& 0 <= h <= COLLISION_BOUND
}

/// Test one player box against one wall box.
pub fn collide(p: &Player, wl: &Wall) -> (hit: bool)
    requires
        box_bounded(p.x as int, p.y as int, p.w as int, p.h as int),
        box_bounded(wl.x as int, wl.y as int, wl.w as int, wl.h as int),
    ensures
        hit == player_hits_wall(*p, *wl),
{
    let pl = p.x - p.w / 2;
    let pr = p.x + p.w / 2;
    let pt = p.y + p.h / 2;
    let pb = p.y - p.h / 2;
    let wl_left = wl.x - wl.w / 2;
    let wl_right = wl.x + wl.w / 2;
    let wl_top = wl.y + wl.h / 2;
    let wl_bot = wl.y - wl.h / 2;
    pl < wl_right && pr > wl_left && pt > wl_bot && pb < wl_top
}

/// Test the player against every wall; any overlap ends the run.
pub fn collision(p: &Player, walls: &Vec<Wall>) -> (hit: bool)
    requires
        box_bounded(p.x as int, p.y as int, p.w as int, p.h as int),
        forall|i: int|
            0 <= i < walls@.len() ==> box_bounded(
                #[trigger] walls@[i].x as int,
                walls@[i].y as int,
                walls@[i].w as int,
                walls@[i].h as int,
            ),
    ensures
        hit == exists|i: int| 0 <= i < walls@.len() && player_hits_wall(*p, #[trigger] walls@[i]),
{
    let n = walls.len();
    let mut i: usize = 0;
    while i < n
        invariant
            n == walls@.len(),
            0 <= i <= n,
            box_bounded(p.x as int, p.y as int, p.w as int, p.h as int),
            forall|j: int|
                0 <= j < walls@.len() ==> box_bounded(
                    #[trigger] walls@[j].x as int,
                    walls@[j].y as int,
                    walls@[j].w as int,
                    walls@[j].h as int,
                ),
            forall|j: int| 0 <= j < i ==> !player_hits_wall(*p, #[trigger] walls@[j]),
        decreases n - i,
    {
        if collide(p, &walls[i]) {
            return true;
        }
        i = i + 1;
    }
    false
}

/// The overlap predicate is symmetric: swapping which box plays the player
/// and which the obstacle yields the same answer.
pub proof fn lemma_overlaps_symmetric(
    ax: int,
    ay: int,
    aw: int,
    ah: int,
    bx: int,
    by: int,
    bw: int,
    bh: int,
)
    ensures
        overlaps(ax, ay, aw, ah, bx, by, bw, bh) == overlaps(bx, by, bw, bh, ax, ay, aw, ah),
{
}

} // verus!

use vstd::prelude::*;

use crate::player::Player;
use crate::rng::gen_range_i64;
use crate::timer::Timer;
use crate::wall::{scroll_cull_spec, Wall, DESPAWN_X, WALL_WIDTH};

verus! {

/// Smallest gap ever offered between a wall pair (80 units).
pub const GAP_FLOOR: i64 = 80_000_000;

/// Base from which the score narrows the gap (200 units).
pub const GAP_BASE: i64 = 200_000_000;

/// Margin kept between the gap and the top/bottom window edges (100 units).
pub const EDGE_MARGIN: i64 = 100_000_000;

/// Distance of a freshly spawned wall's left edge from the window's right
/// edge (20 units).
pub const SPAWN_INSET: i64 = 20_000_000;

/// Upper bound accepted for window extents (in micro-units), so that the
/// spawn geometry stays far inside `i64`.
pub const WINDOW_LIMIT: i64 = 1_000_000_000_000;

/// Per-session gameplay bookkeeping: the score, the number currently shown
/// by the score display, and the repeating wall-spawn timer. The background
/// and score-display entities live and die with the session itself.
#[derive(Debug, Clone, Copy, PartialEq, Eq, Structural)]
pub struct GameSession {
    pub score: u32,
    pub displayed_score: u32,
    pub spawn_timer: Timer,
}

impl GameSession {
    pub open spec fn wf(self) -> bool {
        &&& self.spawn_timer.wf()
        &&& self.spawn_timer.repeating
        &&& self.spawn_timer.duration_ms == 1000
    }
}

/// The session as it is created on entering the game.
pub open spec fn session_init_spec() -> GameSession {
    GameSession {
        score: 0,
        displayed_score: 0,
        spawn_timer: Timer {
            duration_ms: 1000,
            elapsed_ms: 0,
            repeating: true,
            finished: false,
            just_finished: false,
        },
    }
}

/// The player as it is created on entering the game: at rest at (80, 250),
/// with 45 by 35 collision extents.
pub open spec fn player_init_spec() -> Player {
    Player {
        w: 45_000_000,
        h: 35_000_000,
        x: 80_000_000,
        y: 250_000_000,
        vx: 0,
        vy: 0,
        tilt: 0,
    }
}

/// Create the per-session data and the player for a fresh game.
pub fn setup_game() -> (r: (GameSession, Player))
    ensures
        r.0 == session_init_spec(),
        r.1 == player_init_spec(),
        r.0.wf(),
{
    let session = GameSession {
        score: 0,
        displayed_score: 0,
        spawn_timer: Timer::new(1000, true),
    };
    let player = Player {
        w: 45_000_000,
        h: 35_000_000,
        x: 80_000_000,
        y: 250_000_000,
        vx: 0,
        vy: 0,
        tilt: 0,
    };
    (session, player)
}

/// Lower gap bound: 200 units less one unit per score point, floored at 80.
pub open spec fn gap_min_spec(score: u32) -> int {
    if GAP_BASE - score * 1_000_000 >= GAP_FLOOR {
        GAP_BASE - score * 1_000_000
    } else {
        GAP_FLOOR as int
    }
}

/// Upper gap bound: the window height less 200 units and one unit per score
/// point, floored at 80.
pub open spec fn gap_max_spec(score: u32, window_h: int) -> int {
    if window_h - GAP_BASE - score * 1_000_000 >= GAP_FLOOR {
        window_h - GAP_BASE - score * 1_000_000
    } else {
        GAP_FLOOR as int
    }
}

/// Compute both gap bounds for the current score.
pub fn gap_bounds(score: u32, window_h: i64) -> (b: (i64, i64))
    requires
        0 < window_h <= WINDOW_LIMIT,
    ensures
        b.0 as int == gap_min_spec(score),
        b.1 as int == gap_max_spec(score, window_h as int),
{
    let narrowed: i64 = score as i64 * 1_000_000;
    let lo = if GAP_BASE - narrowed >= GAP_FLOOR {
        GAP_BASE - narrowed
    } else {
        GAP_FLOOR
    };
    let hi = if window_h - GAP_BASE - narrowed >= GAP_FLOOR {
        window_h - GAP_BASE - narrowed
    } else {
        GAP_FLOOR
    };
    (lo, hi)
}

/// A wall created from its lower-left corner and extents: the stored
/// position is the box's centre.
pub open spec fn make_wall_spec(x: int, y: int, w: int, h: int) -> Wall {
    Wall { w: w as i64, h: h as i64, x: (x + w / 2) as i64, y: (y + h / 2) as i64 }
}

/// Build one wall from its lower-left corner and extents.
pub fn make_wall(x: i64, y: i64, w: i64, h: i64) -> (wl: Wall)
    requires
        -2_000_000_000_000 <= x <= 2_000_000_000_000,
        -2_000_000_000_000 <= y <= 2_000_000_000_000,
        0 <= w <= WINDOW_LIMIT,
        0 <= h <= WINDOW_LIMIT,
    ensures
        wl == make_wall_spec(x as int, y as int, w as int, h as int),
{
    Wall { w, h, x: x + w / 2, y: y + h / 2 }
}

/// The top wall of a spawned pair: it hangs from above so that exactly
/// `top` units of it reach into the window.
pub open spec fn top_wall_spec(ww: int, wh: int, top: int) -> Wall {
    make_wall_spec(ww - SPAWN_INSET, wh - top, WALL_WIDTH as int, wh)
}

/// The bottom wall of a spawned pair: it rises from below, filling the
/// space under the gap.
pub open spec fn bottom_wall_spec(ww: int, wh: int, gap: int, top: int) -> Wall {
    make_wall_spec(ww - SPAWN_INSET, (wh - gap - top) - wh, WALL_WIDTH as int, wh)
}

/// Both walls of one spawn event, top first.
pub open spec fn spawn_pair_spec(ww: int, wh: int, gap: int, top: int) -> Seq<Wall> {
    seq![top_wall_spec(ww, wh, top), bottom_wall_spec(ww, wh, gap, top)]
}

/// Build the top/bottom wall pair for a drawn gap size and placement.
pub fn spawn_pair(window_w: i64, window_h: i64, gap: i64, top: i64) -> (pair: (Wall, Wall))
    requires
        0 < window_w <= WINDOW_LIMIT,
        0 < window_h <= WINDOW_LIMIT,
        GAP_FLOOR <= gap <= window_h - 2 * EDGE_MARGIN,
        EDGE_MARGIN <= top <= window_h - EDGE_MARGIN - gap,
    ensures
        pair.0 == top_wall_spec(window_w as int, window_h as int, top as int),
        pair.1 == bottom_wall_spec(window_w as int, window_h as int, gap as int, top as int),
{
    let bot = window_h - gap - top;
    let first = make_wall(window_w - SPAWN_INSET, window_h - top, WALL_WIDTH, window_h);
    let second = make_wall(window_w - SPAWN_INSET, bot - window_h, WALL_WIDTH, window_h);
    (first, second)
}

/// What one spawn opportunity may add to the wall list. When the spawn
/// timer did not fire, or the gap interval is inverted, nothing is added.
/// Otherwise either the drawn gap left no room for its placement (possible
/// only in very short windows) and the spawn was skipped, or a top/bottom
/// pair with an in-bounds gap and placement was added.
pub open spec fn spawn_shape(
    spawned: Seq<Wall>,
    fire: bool,
    lo: int,
    hi: int,
    ww: int,
    wh: int,
) -> bool {
    if fire && lo <= hi {
        ||| (spawned.len() == 0 && hi > wh - 2 * EDGE_MARGIN)
        ||| (exists|gap: int, top: int|
            {
                &&& lo <= gap <= hi
                &&& gap <= wh - 2 * EDGE_MARGIN
                &&& EDGE_MARGIN <= top <= wh - EDGE_MARGIN - gap
                &&& spawned =~= spawn_pair_spec(ww, wh, gap, top)
            })
    } else {
        spawned.len() == 0
    }
}

/// The score after a frame that removed at least one wall.
pub open spec fn score_after_removal(score: u32) -> u32 {
    if score == u32::MAX {
        score
    } else {
        (score + 1) as u32
    }
}

/// A wall that the world may hold: on the play field horizontally, with
/// extents and vertical position that the collision arithmetic accepts.
pub open spec fn wall_in_field(wl: Wall, ww: int) -> bool {
    &&& DESPAWN_X <= wl.x <= ww + 10_000_000
    &&& -2_000_000_000_000 <= wl.y <= 2_000_000_000_000
    &&& 0 <= wl.w <= WINDOW_LIMIT
    &&& 0 <= wl.h <= WINDOW_LIMIT
}

/// Culling keeps every surviving wall inside the play-field bounds.
pub proof fn lemma_scroll_cull_field(s: Seq<Wall>, dt: u32, ww: int)
    requires
        forall|i: int| 0 <= i < s.len() ==> wall_in_field(#[trigger] s[i], ww),
    ensures
        forall|i: int|
            0 <= i < scroll_cull_spec(s, dt).len() ==> wall_in_field(
                #[trigger] scroll_cull_spec(s, dt)[i],
                ww,
            ),
    decreases s.len(),
{
    assert(crate::wall::SCROLL_PER_MS * dt >= 0) by (nonlinear_arith)
        requires
            dt >= 0,
    ;
    assert(crate::wall::SCROLL_PER_MS * dt <= 400_000 * 4_294_967_295) by (nonlinear_arith)
        requires
            0 <= dt <= 4_294_967_295,
    ;
    if s.len() > 0 {
        lemma_scroll_cull_field(s.drop_last(), dt, ww);
        assert(wall_in_field(s[s.len() - 1], ww));
        assert forall|i: int| 0 <= i < scroll_cull_spec(s, dt).len() implies wall_in_field(
            #[trigger] scroll_cull_spec(s, dt)[i],
            ww,
        ) by {
            let rest = scroll_cull_spec(s.drop_last(), dt);
            if i < rest.len() {
                assert(scroll_cull_spec(s, dt)[i] == rest[i]);
                assert(wall_in_field(scroll_cull_spec(s.drop_last(), dt)[i], ww));
            } else {
                assert(scroll_cull_spec(s, dt)[i] == s.last().scroll_spec(dt));
                assert(s.last().scroll_spec(dt).alive());
            }
        }
    }
}

/// One frame of the obstacle spawner: advance the spawn timer, possibly
/// spawn a wall pair at the right edge, scroll every wall leftward, despawn
/// the walls that left the play field, and count one point if any wall was
/// despawned this frame.
///
/// The gap of a spawned pair is a random draw from the score-dependent
/// bounds, and its placement keeps 100 units above and below; only that
/// much is promised of the draw, so the wall list is related to the old one
/// through `spawn_shape`.
pub fn walls(
    session: &mut GameSession,
    walls_v: &mut Vec<Wall>,
    dt: u32,
    window_w: i64,
    window_h: i64,
)
    requires
        old(session).wf(),
        0 < window_w <= WINDOW_LIMIT,
        0 < window_h <= WINDOW_LIMIT,
        forall|i: int|
            0 <= i < old(walls_v)@.len() ==> wall_in_field(
                #[trigger] old(walls_v)@[i],
                window_w as int,
            ),
    ensures
        final(session).wf(),
        final(session).spawn_timer == old(session).spawn_timer.tick_spec(dt),
        final(session).displayed_score == old(session).displayed_score,
        forall|i: int|
            0 <= i < final(walls_v)@.len() ==> wall_in_field(
                #[trigger] final(walls_v)@[i],
                window_w as int,
            ),
        ({
            let culled = scroll_cull_spec(old(walls_v)@, dt);
            let removed = culled.len() < old(walls_v)@.len();
            let lo = gap_min_spec(old(session).score);
            let hi = gap_max_spec(old(session).score, window_h as int);
            let fire = old(session).spawn_timer.tick_spec(dt).just_finished;
            &&& final(session).score == if removed {
                score_after_removal(old(session).score)
            } else {
                old(session).score
            }
            &&& exists|spawned: Seq<Wall>|
                final(walls_v)@ == culled + spawned && #[trigger] spawn_shape(
                    spawned,
                    fire,
                    lo,
                    hi,
                    window_w as int,
                    window_h as int,
                )
            &&& (fire && lo <= hi && hi <= window_h - 2 * EDGE_MARGIN)
                ==> final(walls_v)@.len() == culled.len() + 2
        }),
{
    session.spawn_timer.tick(dt);
    let b = gap_bounds(session.score, window_h);
    let lo = b.0;
    let hi = b.1;
    let ghost culled = scroll_cull_spec(old(walls_v)@, dt);
    let removed = crate::wall::scroll_and_cull(walls_v, dt);
    proof {
        lemma_scroll_cull_field(old(walls_v)@, dt, window_w as int);
    }
    if session.spawn_timer.just_finished && lo <= hi {
        let gap = gen_range_i64(lo, hi);
        if gap <= window_h - 2 * EDGE_MARGIN {
            let top = gen_range_i64(EDGE_MARGIN, window_h - EDGE_MARGIN - gap);
            let pair = spawn_pair(window_w, window_h, gap, top);
            walls_v.push(pair.0);
            walls_v.push(pair.1);
            proof {
                let spawned = spawn_pair_spec(
                    window_w as int,
                    window_h as int,
                    gap as int,
                    top as int,
                );
                assert(walls_v@ =~= culled + spawned);
                assert(spawn_shape(
                    spawned,
                    true,
                    lo as int,
                    hi as int,
                    window_w as int,
                    window_h as int,
                ));
            }
        } else {
            proof {
                let spawned = Seq::<Wall>::empty();
                assert(walls_v@ =~= culled + spawned);
                assert(lo <= gap <= hi && gap > window_h - 2 * EDGE_MARGIN);
                assert(spawn_shape(
                    spawned,
                    true,
                    lo as int,
                    hi as int,
                    window_w as int,
                    window_h as int,
                ));
            }
        }
    } else {
        proof {
            let spawned = Seq::<Wall>::empty();
            assert(walls_v@ =~= culled + spawned);
            assert(spawn_shape(
                spawned,
                session.spawn_timer.just_finished,
                lo as int,
                hi as int,
                window_w as int,
                window_h as int,
            ));
        }
    }
    if removed {
        if session.score < u32::MAX {
            session.score = session.score + 1;
        }
    }
}

/// Mirror the session's score into the score display.
pub fn score_keeper(session: &mut GameSession)
    ensures
        *final(session) == (GameSession { displayed_score: old(session).score, ..*old(session) }),
{
    session.displayed_score = session.score;
}

/// The gap bounds are floored at 80 units for every score, and in any
/// window at least 400 units tall the interval is never inverted.
pub proof fn lemma_gap_bounds(score: u32, window_h: int)
    ensures
        gap_min_spec(score) >= GAP_FLOOR,
        gap_max_spec(score, window_h) >= GAP_FLOOR,
        gap_min_spec(score) <= GAP_BASE,
        window_h >= 400_000_000 ==> gap_min_spec(score) <= gap_max_spec(score, window_h),
{
}

} // verus!

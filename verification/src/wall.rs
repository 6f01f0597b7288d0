use vstd::prelude::*;

verus! {

/// One obstacle: collision extents and the position of its centre, in
/// micro-units. Obstacles are spawned in top/bottom pairs that leave a gap.
#[derive(Debug, Clone, Copy, PartialEq, Eq, Structural)]
pub struct Wall {
    pub w: i64,
    pub h: i64,
    pub x: i64,
    pub y: i64,
}

/// Leftward scroll speed of obstacles: 400 units per second, i.e. 400
/// micro-units per millisecond of frame time.
pub const SCROLL_PER_MS: i64 = 400_000;

/// An obstacle whose centre drops below this x (−60 units) has left the
/// play field and is despawned.
pub const DESPAWN_X: i64 = -60_000_000;

/// Width of every obstacle (60 units).
pub const WALL_WIDTH: i64 = 60_000_000;

impl Wall {
    /// The wall after scrolling leftward for `dt` milliseconds.
    pub open spec fn scroll_spec(self, dt: u32) -> Wall {
        Wall { x: (self.x - SCROLL_PER_MS * dt) as i64, ..self }
    }

    /// Whether the wall is still on the play field after a scroll step.
    pub open spec fn alive(self) -> bool {
        self.x >= DESPAWN_X
    }

    /// The wall after `n` scroll steps of `dt` milliseconds each.
    pub open spec fn scroll_iter(self, dt: u32, n: nat) -> Wall
        decreases n,
    {
        if n == 0 {
            self
        } else {
            self.scroll_iter(dt, (n - 1) as nat).scroll_spec(dt)
        }
    }
}

/// The walls that remain after every wall scrolls left for `dt`
/// milliseconds and those past the despawn line are removed, in their
/// original order.
pub open spec fn scroll_cull_spec(s: Seq<Wall>, dt: u32) -> Seq<Wall>
    decreases s.len(),
{
    if s.len() == 0 {
        Seq::empty()
    } else {
        let rest = scroll_cull_spec(s.drop_last(), dt);
        let wl = s.last().scroll_spec(dt);
        if wl.alive() {
            rest.push(wl)
        } else {
            rest
        }
    }
}

/// Scroll every wall left by the frame's distance and remove the ones that
/// left the play field; reports whether any wall was removed.
pub fn scroll_and_cull(walls: &mut Vec<Wall>, dt: u32) -> (removed: bool)
    requires
        forall|i: int| 0 <= i < old(walls)@.len() ==> DESPAWN_X <= #[trigger] old(walls)@[i].x,
    ensures
        final(walls)@ == scroll_cull_spec(old(walls)@, dt),
        removed == (final(walls)@.len() < old(walls)@.len()),
{
    let mut out: Vec<Wall> = Vec::new();
    let n = walls.len();
    let ghost all = walls@;
    let mut i: usize = 0;
    while i < n
        invariant
            n == all.len(),
            walls@ == all,
            0 <= i <= n,
            out@ == scroll_cull_spec(all.subrange(0, i as int), dt),
            out@.len() <= i,
            forall|j: int| 0 <= j < all.len() ==> DESPAWN_X <= #[trigger] all[j].x,
        decreases n - i,
    {
        let wl = walls[i];
        let step: i64 = SCROLL_PER_MS * dt as i64;
        let x2: i64 = wl.x - step;
        let moved = Wall { x: x2, ..wl };
        proof {
            assert(all.subrange(0, i + 1).drop_last() == all.subrange(0, i as int));
            assert(all.subrange(0, i + 1).last() == all[i as int]);
        }
        if x2 >= DESPAWN_X {
            out.push(moved);
        }
        i = i + 1;
    }
    proof {
        assert(all.subrange(0, n as int) == all);
    }
    let removed = out.len() < walls.len();
    *walls = out;
    removed
}

/// Culling never grows the set of walls, and every survivor is the scrolled
/// image of some original wall that stayed on the play field.
pub proof fn lemma_scroll_cull_shape(s: Seq<Wall>, dt: u32)
    ensures
        scroll_cull_spec(s, dt).len() <= s.len(),
        forall|i: int|
            0 <= i < scroll_cull_spec(s, dt).len() ==> #[trigger] scroll_cull_spec(s, dt)[i].alive()
                && exists|j: int|
                0 <= j < s.len() && scroll_cull_spec(s, dt)[i] == s[j].scroll_spec(dt),
    decreases s.len(),
{
    if s.len() > 0 {
        lemma_scroll_cull_shape(s.drop_last(), dt);
        assert forall|i: int| 0 <= i < scroll_cull_spec(s, dt).len() implies
            #[trigger] scroll_cull_spec(s, dt)[i].alive() && exists|j: int|
                0 <= j < s.len() && scroll_cull_spec(s, dt)[i] == s[j].scroll_spec(dt) by {
            let culled = scroll_cull_spec(s, dt);
            let rest = scroll_cull_spec(s.drop_last(), dt);
            if i < rest.len() {
                assert(culled[i] == rest[i]);
                assert(scroll_cull_spec(s.drop_last(), dt)[i].alive());
                assert(exists|j: int|
                    0 <= j < s.drop_last().len() && scroll_cull_spec(s.drop_last(), dt)[i] == s
                        .drop_last()[j].scroll_spec(dt));
                let j = choose|j: int|
                    0 <= j < s.drop_last().len() && scroll_cull_spec(s.drop_last(), dt)[i] == s
                        .drop_last()[j].scroll_spec(dt);
                assert(s.drop_last()[j] == s[j]);
                assert(culled[i] == s[j].scroll_spec(dt));
            } else {
                assert(culled[i] == s.last().scroll_spec(dt));
                assert(culled[i] == s[s.len() - 1].scroll_spec(dt));
            }
        }
    }
}

/// Scrolling for `n` frames of `dt` milliseconds moves a wall left by
/// exactly the scroll speed times the total elapsed time, and changes
/// nothing else.
pub proof fn lemma_scroll_distance(wl: Wall, dt: u32, n: nat)
    requires
        i64::MIN <= wl.x - SCROLL_PER_MS * dt * n,
    ensures
        wl.scroll_iter(dt, n).x == wl.x - SCROLL_PER_MS * dt * n,
        wl.scroll_iter(dt, n).y == wl.y,
        wl.scroll_iter(dt, n).w == wl.w,
        wl.scroll_iter(dt, n).h == wl.h,
    decreases n,
{
    if n == 0 {
        assert(SCROLL_PER_MS * dt * n == 0) by (nonlinear_arith)
            requires
                n == 0,
        ;
    } else {
        let m = (n - 1) as nat;
        assert(SCROLL_PER_MS * dt * n == SCROLL_PER_MS * dt * m + SCROLL_PER_MS * dt)
            by (nonlinear_arith)
            requires
                n == m + 1,
        ;
        assert(SCROLL_PER_MS * dt >= 0) by (nonlinear_arith)
            requires
                dt >= 0,
        ;
        assert(SCROLL_PER_MS * dt * m <= SCROLL_PER_MS * dt * n) by (nonlinear_arith)
            requires
                0 <= m <= n,
                SCROLL_PER_MS * dt >= 0,
        ;
        lemma_scroll_distance(wl, dt, m);
    }
}

/// A wall's x position never increases while scrolling, so a wall that is
/// still on the play field after `n` frames was on the play field after
/// every earlier frame: it is destroyed exactly when its x position first
/// drops below the despawn line, never before.
pub proof fn lemma_survives_until(wl: Wall, dt: u32, n: nat, k: nat)
    requires
        k <= n,
        i64::MIN <= wl.x - SCROLL_PER_MS * dt * n,
        wl.scroll_iter(dt, n).alive(),
    ensures
        wl.scroll_iter(dt, k).alive(),
{
    assert(SCROLL_PER_MS * dt >= 0) by (nonlinear_arith)
        requires
            dt >= 0,
    ;
    assert(SCROLL_PER_MS * dt * k <= SCROLL_PER_MS * dt * n) by (nonlinear_arith)
        requires
            0 <= k <= n,
            SCROLL_PER_MS * dt >= 0,
    ;
    lemma_scroll_distance(wl, dt, n);
    lemma_scroll_distance(wl, dt, k);
}

} // verus!
